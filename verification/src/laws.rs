//! What holds of the protocol as a whole.
//!
//! Each statement here is proved from the definitions the operations'
//! contracts are written in.

use vstd::prelude::*;
use bson::Document;
use crate::action::Action;
use crate::document::{encoding, entries};
use crate::value::{Entries, Value, group_entries, has_key, lemma_lookup_first, lookup};
use crate::error::Cause;
use crate::field::{text_in, flag_in, identifier_in, document_in, array_in};
use crate::protocol::{envelope_base, envelope_of, lemma_envelope_keys};
use crate::repository::{identified, filtered, chronicled};
use crate::repository::model::{create, delete, update, lemma_request_keys};
use crate::request::{Request, retrieve_defaults};
use crate::response::{Reply, Shape, shape_of, discriminated};

verus! {

/// No two actions share a tag: the tag alone identifies the action.
pub proof fn lemma_tags_distinct(a: Action, b: Action)
    requires
        a.tag() == b.tag(),
    ensures
        a == b,
{
    reveal_strlit("create");
    reveal_strlit("createTimeseries");
    reveal_strlit("retrieve");
    reveal_strlit("update");
    reveal_strlit("delete");
    reveal_strlit("count");
    reveal_strlit("distinct");
    reveal_strlit("createCollection");
    reveal_strlit("renameCollection");
    reveal_strlit("dropCollection");
    reveal_strlit("index");
    reveal_strlit("dropIndex");
    reveal_strlit("bulk");
    reveal_strlit("pipeline");
    reveal_strlit("transaction");
    assert("create"@.len() == 6);
    assert("createTimeseries"@.len() == 16);
    assert("retrieve"@.len() == 8);
    assert("update"@.len() == 6);
    assert("delete"@.len() == 6);
    assert("count"@.len() == 5);
    assert("distinct"@.len() == 8);
    assert("createCollection"@.len() == 16);
    assert("renameCollection"@.len() == 16);
    assert("dropCollection"@.len() == 14);
    assert("index"@.len() == 5);
    assert("dropIndex"@.len() == 9);
    assert("bulk"@.len() == 4);
    assert("pipeline"@.len() == 8);
    assert("transaction"@.len() == 11);
    assert("create"@[0] != "update"@[0]);
    assert("create"@[0] != "delete"@[0]);
    assert("createTimeseries"@[6] != "createCollection"@[6]);
    assert("createTimeseries"@[0] != "renameCollection"@[0]);
    assert("retrieve"@[0] != "distinct"@[0]);
    assert("retrieve"@[0] != "pipeline"@[0]);
    assert("update"@[0] != "delete"@[0]);
    assert("count"@[0] != "index"@[0]);
    assert("distinct"@[0] != "pipeline"@[0]);
    assert("createCollection"@[0] != "renameCollection"@[0]);
}

/// What the mandatory part of an envelope holds under each of its keys,
/// and that it holds none of the optional keys.
proof fn lemma_base_fields(r: Request)
    ensures
        text_in(envelope_base(r), "database"@) == Some(r.database@),
        text_in(envelope_base(r), "collection"@) == Some(r.collection@),
        document_in(envelope_base(r), "document"@) == Some(entries(r.document)),
        text_in(envelope_base(r), "action"@) == Some(r.action.tag()),
        flag_in(envelope_base(r), "skipVersion"@) == Some(r.skipVersion),
        flag_in(envelope_base(r), "skipMetric"@) == Some(r.skipMetric),
        has_key(envelope_base(r), "database"@),
        has_key(envelope_base(r), "collection"@),
        has_key(envelope_base(r), "document"@),
        has_key(envelope_base(r), "action"@),
        has_key(envelope_base(r), "skipVersion"@),
        has_key(envelope_base(r), "skipMetric"@),
        !has_key(envelope_base(r), "options"@),
        !has_key(envelope_base(r), "metadata"@),
        !has_key(envelope_base(r), "correlationId"@),
{
    lemma_envelope_keys();
    let base = envelope_base(r);
    lemma_lookup_first(base, "database"@, 0);
    lemma_lookup_first(base, "collection"@, 1);
    lemma_lookup_first(base, "document"@, 2);
    lemma_lookup_first(base, "action"@, 3);
    lemma_lookup_first(base, "skipVersion"@, 4);
    lemma_lookup_first(base, "skipMetric"@, 5);
    assert(base[0].0 == "database"@);
    assert(base[1].0 == "collection"@);
    assert(base[2].0 == "document"@);
    assert(base[3].0 == "action"@);
    assert(base[4].0 == "skipVersion"@);
    assert(base[5].0 == "skipMetric"@);
}

/// The envelope of a request holds the tag of the request's action under
/// `action`, whatever the action and whatever else the request holds.
pub proof fn lemma_envelope_action(r: Request)
    ensures
        text_in(envelope_of(r), "action"@) == Some(r.action.tag()),
{
    broadcast use group_entries;
    lemma_envelope_keys();
    lemma_base_fields(r);
}

/// The envelope of a typed request holds the tag of its operation under
/// `action`: `create`, `update` or `delete`.
pub proof fn lemma_typed_envelope_action(
    c: create::Request<Document, Document>,
    u: update::Request<Document, Document>,
    d: delete::Request<Document>,
)
    ensures
        c.envelope_of() matches Some(e) ==> text_in(e, "action"@) == Some(Action::create.tag()),
        u.envelope_of() matches Ok(e) ==> text_in(e, "action"@) == Some(Action::update.tag()),
        d.envelope_of() matches Some(e) ==> text_in(e, "action"@) == Some(Action::delete.tag()),
{
    lemma_request_keys();
    if c.envelope_of() is Some {
        lemma_lookup_first(c.envelope_of()->Some_0, "action"@, 9);
    }
    if u.envelope_of() is Ok {
        lemma_lookup_first(u.envelope_of()->Ok_0, "action"@, 8);
    }
    if d.envelope_of() is Some {
        lemma_lookup_first(d.envelope_of()->Some_0, "action"@, 9);
    }
}

/// The envelopes of the queries hold the tag `retrieve` under `action`.
pub proof fn lemma_query_envelope_action(
    application: Seq<char>,
    database: Seq<char>,
    collection: Seq<char>,
    id: Seq<u8>,
    filter: Entries,
    limit: u32,
    descending: bool,
)
    ensures
        text_in(identified(application, database, collection, id), "action"@) == Some(Action::retrieve.tag()),
        text_in(filtered(filter, application, database, collection, limit, descending), "action"@) == Some(
            Action::retrieve.tag(),
        ),
        text_in(chronicled(application, database, collection, id), "action"@) == Some(Action::retrieve.tag()),
{
    lemma_request_keys();
    lemma_lookup_first(identified(application, database, collection, id), "action"@, 3);
    lemma_lookup_first(filtered(filter, application, database, collection, limit, descending), "action"@, 5);
    lemma_lookup_first(chronicled(application, database, collection, id), "action"@, 3);
}

/// An update whose entity carries no object identifier under `_id` has no
/// envelope and no bytes: it fails while the request is built, before
/// anything could be sent.
pub proof fn lemma_update_needs_identifier(r: update::Request<Document, Document>)
    requires
        identifier_in(entries(r.document), "_id"@) is None,
    ensures
        r.envelope_of() matches Err(cause) && cause.is_construction(),
        r.wire() matches Err(cause) && cause.is_construction(),
{
}

/// An update whose entity carries an object identifier under `_id`, and
/// whose options have a document, has an envelope. The payload of that
/// envelope filters on the very identifier the replacement carries, and the
/// replacement is the entity unchanged. The request then has bytes exactly
/// when the envelope has an encoding.
pub proof fn lemma_update_filters_on_identifier(r: update::Request<Document, Document>)
    requires
        identifier_in(entries(r.document), "_id"@) is Some,
        update::options_or_null(r.options) is Some,
    ensures
        r.envelope_of() matches Ok(e) && document_in(e, "document"@) matches Some(payload) && document_in(
            payload,
            "filter"@,
        ) matches Some(filter) && document_in(payload, "replace"@) matches Some(replace) && replace == entries(
            r.document,
        ) && identifier_in(filter, "_id"@) is Some && identifier_in(filter, "_id"@) == identifier_in(
            replace,
            "_id"@,
        ),
        r.envelope_of() matches Ok(e) && (r.wire() is Ok <==> encoding(e) is Some),
{
    lemma_request_keys();
    reveal_strlit("filter");
    reveal_strlit("replace");
    assert("filter"@.len() != "replace"@.len());
    let entity = entries(r.document);
    let id = identifier_in(entity, "_id"@).unwrap();
    let e = r.envelope_of()->Ok_0;
    lemma_lookup_first(e, "document"@, 9);
    let payload = update::replacement(entity, id);
    lemma_lookup_first(payload, "filter"@, 0);
    lemma_lookup_first(payload, "replace"@, 1);
    lemma_lookup_first(seq![("_id"@, Value::ObjectId(id))], "_id"@, 0);
}

/// The options a retrieval starts out with: a limit of 250 and an ascending
/// sort on `_id`.
pub proof fn lemma_retrieve_defaults()
    ensures
        lookup(retrieve_defaults(), "limit"@) == Some(Value::Int32(250)),
        document_in(retrieve_defaults(), "sort"@) matches Some(sort) && lookup(sort, "_id"@) == Some(
            Value::Int32(1),
        ),
{
    reveal_strlit("limit");
    reveal_strlit("sort");
    assert("limit"@.len() != "sort"@.len());
    lemma_lookup_first(retrieve_defaults(), "limit"@, 0);
    lemma_lookup_first(retrieve_defaults(), "sort"@, 1);
    lemma_lookup_first(seq![("_id"@, Value::Int32(1))], "_id"@, 0);
}

/// Every reply has exactly one shape, chosen by key presence in the order
/// `result`, `results`, `error`: an earlier key wins over a later one
/// whatever else the reply holds, and a reply with none of them is bare.
pub proof fn lemma_shape_by_precedence(reply: Entries)
    ensures
        shape_of(reply) == Shape::Result <==> has_key(reply, "result"@),
        shape_of(reply) == Shape::Results <==> !has_key(reply, "result"@) && has_key(reply, "results"@),
        shape_of(reply) == Shape::Error <==> !has_key(reply, "result"@) && !has_key(reply, "results"@) && has_key(
            reply,
            "error"@,
        ),
        shape_of(reply) == Shape::Bare <==> !has_key(reply, "result"@) && !has_key(reply, "results"@) && !has_key(
            reply,
            "error"@,
        ),
{
}

/// Whether the value under a reply's discriminator is of the kind the
/// discriminator calls for: a document under `result`, an array under
/// `results`, a string under `error`.
pub open spec fn well_typed(reply: Entries) -> bool {
    match shape_of(reply) {
        Shape::Result => document_in(reply, "result"@) is Some,
        Shape::Results => array_in(reply, "results"@) is Some,
        Shape::Error => text_in(reply, "error"@) is Some,
        Shape::Bare => true,
    }
}

/// Discrimination is total on well-typed replies and follows the shape:
/// the document under `result`, the array under `results`, the string
/// under `error`, or the whole reply as a result where it is bare. A reply
/// that is not well typed is a protocol violation and nothing else.
pub proof fn lemma_discrimination_total(reply: Entries)
    ensures
        well_typed(reply) ==> (match shape_of(reply) {
            Shape::Result => discriminated(reply) == Ok::<Reply, Cause>(
                Reply::Result(document_in(reply, "result"@).unwrap()),
            ),
            Shape::Results => discriminated(reply) == Ok::<Reply, Cause>(
                Reply::Results(array_in(reply, "results"@).unwrap()),
            ),
            Shape::Error => discriminated(reply) == Ok::<Reply, Cause>(
                Reply::Error(text_in(reply, "error"@).unwrap()),
            ),
            Shape::Bare => discriminated(reply) == Ok::<Reply, Cause>(Reply::Result(reply)),
        }),
        !well_typed(reply) ==> discriminated(reply) == Err::<Reply, Cause>(Cause::ProtocolViolation),
{
}

/// A reply without entries is a result: the empty document.
pub proof fn lemma_empty_reply_is_result()
    ensures
        discriminated(Seq::empty()) == Ok::<Reply, Cause>(Reply::Result(Seq::empty())),
{
    broadcast use group_entries;
}

/// A reply that holds nothing but the service's message under `error` is
/// that error, never a result.
pub proof fn lemma_error_reply(message: Seq<char>)
    ensures
        discriminated(seq![("error"@, Value::Text(message))]) == Ok::<Reply, Cause>(Reply::Error(message)),
{
    broadcast use group_entries;
    reveal_strlit("result");
    reveal_strlit("results");
    reveal_strlit("error");
    assert("error"@.len() != "result"@.len());
    assert("error"@.len() != "results"@.len());
}

/// The envelope of a request holds every field the caller supplied,
/// unchanged and under its own key: the mandatory ones always, each
/// optional one exactly when it is set, whichever of the others are set.
pub proof fn lemma_envelope_keeps_fields(r: Request)
    ensures
        text_in(envelope_of(r), "database"@) == Some(r.database@),
        text_in(envelope_of(r), "collection"@) == Some(r.collection@),
        document_in(envelope_of(r), "document"@) == Some(entries(r.document)),
        flag_in(envelope_of(r), "skipVersion"@) == Some(r.skipVersion),
        flag_in(envelope_of(r), "skipMetric"@) == Some(r.skipMetric),
        match r.options {
            Some(options) => document_in(envelope_of(r), "options"@) == Some(entries(options)),
            None => !has_key(envelope_of(r), "options"@),
        },
        match r.metadata {
            Some(metadata) => document_in(envelope_of(r), "metadata"@) == Some(entries(metadata)),
            None => !has_key(envelope_of(r), "metadata"@),
        },
        match r.correlationId {
            Some(id) => text_in(envelope_of(r), "correlationId"@) == Some(id@),
            None => !has_key(envelope_of(r), "correlationId"@),
        },
{
    broadcast use group_entries;
    lemma_envelope_keys();
    lemma_base_fields(r);
}

/// The envelopes of the typed create and delete requests hold the entity,
/// or the query, unchanged under `document`.
pub proof fn lemma_typed_envelope_keeps_payload(c: create::Request<Document, Document>, d: delete::Request<Document>)
    ensures
        c.envelope_of() matches Some(e) ==> document_in(e, "document"@) == Some(entries(c.document)),
        d.envelope_of() matches Some(e) ==> document_in(e, "document"@) == Some(entries(d.document)),
{
    lemma_request_keys();
    if c.envelope_of() is Some {
        lemma_lookup_first(c.envelope_of()->Some_0, "document"@, 3);
    }
    if d.envelope_of() is Some {
        lemma_lookup_first(d.envelope_of()->Some_0, "document"@, 3);
    }
}

} // verus!
