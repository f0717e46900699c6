//! Entity-level operations composed from request building, the exchange
//! with the service, and reply discrimination.
//!
//! Entities travel as documents: turning a document into a value of the
//! caller's own type, and back, is the caller's business.

use vstd::prelude::*;
use bson::{Bson, Document};
use bson::oid::ObjectId;
use crate::action::Action;
use crate::document::{
    embedded, entries, get, insert, int32, new_document, object_id, oid_bytes, text, unsigned,
    value,
};
use crate::value::{Entries, Value, group_entries, has_key};
use crate::error::{Cause, Failure};
use crate::field::{document_in, array_in, document_at, array_at, reported, report};
use crate::protocol::{exchange, exchanged, got};
use crate::repository::model::{
    VersionHistory, all_documents, all_snapshots, are_documents, are_snapshots, documents, framed,
    lemma_request_keys, snapshots,
};

pub mod model;

verus! {

/// The envelope that asks for the one document with a given `_id`.
pub open spec fn identified(application: Seq<char>, database: Seq<char>, collection: Seq<char>, id: Seq<u8>) -> Entries {
    seq![
        ("application"@, Value::Text(application)),
        ("database"@, Value::Text(database)),
        ("collection"@, Value::Text(collection)),
        ("action"@, Value::Text(Action::retrieve.tag())),
        ("document"@, Value::Document(seq![("_id"@, Value::ObjectId(id))])),
    ]
}

/// A page limit as a value: a 32-bit integer where the limit fits one, a
/// 64-bit integer otherwise.
pub open spec fn limit_value(limit: u32) -> Value {
    if limit <= i32::MAX {
        Value::Int32(limit as i32)
    } else {
        Value::Int64(limit as i64)
    }
}

/// The order of a query by `_id`: 1 for ascending, -1 for descending.
pub open spec fn direction(descending: bool) -> i32 {
    if descending {
        -1i32
    } else {
        1i32
    }
}

/// The options of a query: at most `limit` documents, ordered by `_id`.
pub open spec fn page(limit: u32, descending: bool) -> Entries {
    seq![
        ("limit"@, limit_value(limit)),
        ("sort"@, Value::Document(seq![("_id"@, Value::Int32(direction(descending)))])),
    ]
}

/// The envelope that asks for the documents that match a filter.
pub open spec fn filtered(
    filter: Entries,
    application: Seq<char>,
    database: Seq<char>,
    collection: Seq<char>,
    limit: u32,
    descending: bool,
) -> Entries {
    seq![
        ("application"@, Value::Text(application)),
        ("database"@, Value::Text(database)),
        ("collection"@, Value::Text(collection)),
        ("document"@, Value::Document(filter)),
        ("options"@, Value::Document(page(limit, descending))),
        ("action"@, Value::Text(Action::retrieve.tag())),
    ]
}

/// The envelope that asks for every snapshot of the entity with a given
/// `_id`, oldest first.
pub open spec fn chronicled(application: Seq<char>, database: Seq<char>, collection: Seq<char>, id: Seq<u8>) -> Entries {
    seq![
        ("application"@, Value::Text(application)),
        ("database"@, Value::Text(database)),
        ("collection"@, Value::Text(collection)),
        ("action"@, Value::Text(Action::retrieve.tag())),
        ("document"@, Value::Document(seq![("entity._id"@, Value::ObjectId(id))])),
        ("options"@, Value::Document(seq![("sort"@, Value::Document(seq![("_id"@, Value::Int32(1))]))])),
    ]
}

/// A document that holds `content` under `key` and nothing else.
fn single(key: &str, content: Bson) -> (d: Document)
    ensures
        entries(d) == seq![(key@, value(content))],
{
    broadcast use group_entries;
    let mut d = new_document();
    insert(&mut d, key, content);
    d
}

/// Builds the envelope that asks for the one document with a given `_id`.
pub fn identify(id: ObjectId, application: &str, database: &str, collection: &str) -> (d: Document)
    ensures
        entries(d) == identified(application@, database@, collection@, oid_bytes(id)),
{
    broadcast use group_entries;
    proof {
        lemma_request_keys();
    }
    let mut d = new_document();
    insert(&mut d, "application", text(application));
    insert(&mut d, "database", text(database));
    insert(&mut d, "collection", text(collection));
    insert(&mut d, "action", text(Action::retrieve.name()));
    insert(&mut d, "document", embedded(&single("_id", object_id(id))));
    d
}

/// Builds the envelope that asks for the documents that match a filter.
pub fn select(filter: &Document, application: &str, database: &str, collection: &str, limit: u32, descending: bool) -> (d:
    Document)
    ensures
        entries(d) == filtered(entries(*filter), application@, database@, collection@, limit, descending),
{
    broadcast use group_entries;
    proof {
        lemma_request_keys();
        reveal_strlit("limit");
        reveal_strlit("sort");
        assert("limit"@.len() != "sort"@.len());
    }
    let order: i32 = if descending {
        -1
    } else {
        1
    };
    let bound = unsigned(limit);
    assert(value(bound) == limit_value(limit));
    let mut options = new_document();
    insert(&mut options, "limit", bound);
    insert(&mut options, "sort", embedded(&single("_id", int32(order))));
    assert(entries(options) == page(limit, descending));
    let mut d = new_document();
    insert(&mut d, "application", text(application));
    insert(&mut d, "database", text(database));
    insert(&mut d, "collection", text(collection));
    insert(&mut d, "document", embedded(filter));
    insert(&mut d, "options", embedded(&options));
    insert(&mut d, "action", text(Action::retrieve.name()));
    d
}

/// Builds the envelope that asks for every snapshot of an entity.
pub fn chronicle(id: ObjectId, application: &str, database: &str, collection: &str) -> (d: Document)
    ensures
        entries(d) == chronicled(application@, database@, collection@, oid_bytes(id)),
{
    broadcast use group_entries;
    proof {
        lemma_request_keys();
    }
    let sort = single("sort", embedded(&single("_id", int32(1))));
    let mut d = new_document();
    insert(&mut d, "application", text(application));
    insert(&mut d, "database", text(database));
    insert(&mut d, "collection", text(collection));
    insert(&mut d, "action", text(Action::retrieve.name()));
    insert(&mut d, "document", embedded(&single("entity._id", object_id(id))));
    insert(&mut d, "options", embedded(&sort));
    d
}

/// Whether `r` is what a reply to a query for one entity amounts to: the
/// document under `result`; else the service's failure under `error`; else
/// a protocol violation, as is a `result` that is no document.
pub open spec fn is_entity(reply: Entries, r: Result<Document, Failure>) -> bool {
    if has_key(reply, "result"@) {
        match document_in(reply, "result"@) {
            Some(inner) => r matches Ok(d) && entries(d) == inner,
            None => r matches Err(f) && f@ == Cause::ProtocolViolation,
        }
    } else if has_key(reply, "error"@) {
        r matches Err(f) && f@ == reported(reply)
    } else {
        r matches Err(f) && f@ == Cause::ProtocolViolation
    }
}

/// Reads the reply to a query for one entity.
pub fn entity_of(reply: &Document) -> (r: Result<Document, Failure>)
    ensures
        is_entity(entries(*reply), r),
{
    if get(reply, "result").is_some() {
        match document_at(reply, "result") {
            Some(inner) => Ok(inner),
            None => Err(Failure::ProtocolViolation),
        }
    } else if get(reply, "error").is_some() {
        Err(report(reply))
    } else {
        Err(Failure::ProtocolViolation)
    }
}

/// Whether `r` is what a reply to a query for several entities amounts to:
/// the one document under `result`, should the service answer in the
/// single-result shape; else the documents under `results`; else the
/// service's failure under `error`; else a protocol violation, as is a
/// discriminator whose value is of the wrong kind.
pub open spec fn is_entities(reply: Entries, r: Result<Vec<Document>, Failure>) -> bool {
    if has_key(reply, "result"@) {
        match document_in(reply, "result"@) {
            Some(inner) => r matches Ok(found) && found@.len() == 1 && entries(found@[0]) == inner,
            None => r matches Err(f) && f@ == Cause::ProtocolViolation,
        }
    } else if has_key(reply, "results"@) {
        match array_in(reply, "results"@) {
            Some(items) => if all_documents(items) {
                r matches Ok(found) && are_documents(found@, items)
            } else {
                r matches Err(f) && f@ == Cause::ProtocolViolation
            },
            None => r matches Err(f) && f@ == Cause::ProtocolViolation,
        }
    } else if has_key(reply, "error"@) {
        r matches Err(f) && f@ == reported(reply)
    } else {
        r matches Err(f) && f@ == Cause::ProtocolViolation
    }
}

/// Reads the reply to a query for several entities. Whether the reply came
/// in the single-result shape, which a caller may want to note, is what
/// [`crate::response::shape`] tells.
pub fn entities_of(reply: &Document) -> (r: Result<Vec<Document>, Failure>)
    ensures
        is_entities(entries(*reply), r),
{
    if get(reply, "result").is_some() {
        match document_at(reply, "result") {
            Some(inner) => {
                let mut found: Vec<Document> = Vec::new();
                found.push(inner);
                Ok(found)
            },
            None => Err(Failure::ProtocolViolation),
        }
    } else if get(reply, "results").is_some() {
        match array_at(reply, "results") {
            Some(items) => match documents(items) {
                Some(found) => Ok(found),
                None => Err(Failure::ProtocolViolation),
            },
            None => Err(Failure::ProtocolViolation),
        }
    } else if get(reply, "error").is_some() {
        Err(report(reply))
    } else {
        Err(Failure::ProtocolViolation)
    }
}

/// Whether `r` is what a reply to a query for one snapshot amounts to: the
/// snapshot under `result`; else the service's failure under `error`; else
/// a protocol violation, as is a `result` that does not read as a snapshot.
pub open spec fn is_snapshot(reply: Entries, r: Result<VersionHistory<Document>, Failure>) -> bool {
    if has_key(reply, "result"@) {
        match document_in(reply, "result"@) {
            Some(inner) => if VersionHistory::<Document>::readable(inner) {
                r matches Ok(h) && h.describes(inner)
            } else {
                r matches Err(f) && f@ == Cause::ProtocolViolation
            },
            None => r matches Err(f) && f@ == Cause::ProtocolViolation,
        }
    } else if has_key(reply, "error"@) {
        r matches Err(f) && f@ == reported(reply)
    } else {
        r matches Err(f) && f@ == Cause::ProtocolViolation
    }
}

/// Reads the reply to a query for one snapshot.
pub fn snapshot_of(reply: &Document) -> (r: Result<VersionHistory<Document>, Failure>)
    ensures
        is_snapshot(entries(*reply), r),
{
    if get(reply, "result").is_some() {
        match document_at(reply, "result") {
            Some(inner) => match VersionHistory::from_document(&inner) {
                Some(h) => Ok(h),
                None => Err(Failure::ProtocolViolation),
            },
            None => Err(Failure::ProtocolViolation),
        }
    } else if get(reply, "error").is_some() {
        Err(report(reply))
    } else {
        Err(Failure::ProtocolViolation)
    }
}

/// Whether `r` is what a reply to a query for an entity's snapshots amounts
/// to: the snapshots under `results`; else the service's failure under
/// `error`; else a protocol violation, as is a `results` that is no array
/// of snapshots.
pub open spec fn is_snapshots(reply: Entries, r: Result<Vec<VersionHistory<Document>>, Failure>) -> bool {
    if has_key(reply, "results"@) {
        match array_in(reply, "results"@) {
            Some(items) => if all_snapshots(items) {
                r matches Ok(found) && are_snapshots(found@, items)
            } else {
                r matches Err(f) && f@ == Cause::ProtocolViolation
            },
            None => r matches Err(f) && f@ == Cause::ProtocolViolation,
        }
    } else if has_key(reply, "error"@) {
        r matches Err(f) && f@ == reported(reply)
    } else {
        r matches Err(f) && f@ == Cause::ProtocolViolation
    }
}

/// Reads the reply to a query for an entity's snapshots.
pub fn snapshots_of(reply: &Document) -> (r: Result<Vec<VersionHistory<Document>>, Failure>)
    ensures
        is_snapshots(entries(*reply), r),
{
    if get(reply, "results").is_some() {
        match array_at(reply, "results") {
            Some(items) => match snapshots(items) {
                Some(found) => Ok(found),
                None => Err(Failure::ProtocolViolation),
            },
            None => Err(Failure::ProtocolViolation),
        }
    } else if get(reply, "error").is_some() {
        Err(report(reply))
    } else {
        Err(Failure::ProtocolViolation)
    }
}

/// Creates an entity.
///
/// Fails without using the transport where the request has no envelope or
/// the envelope no encoding. Otherwise the transport is handed the
/// envelope's bytes, and the outcome is the transport's failure, the
/// decoder's, or what the reply amounts to ([`model::create::answers`]).
pub fn create<F: FnOnce(Vec<u8>) -> Result<Vec<u8>, String>>(request: model::create::Request<Document, Document>, transport: F) -> (r:
    Result<model::create::Response, Failure>)
    requires
        forall|bytes: Vec<u8>| call_requires(transport, (bytes,)),
    ensures
        match request.envelope_of() {
            None => r matches Err(f) && f@ == Cause::Encoding,
            Some(envelope) => exists|reply: Result<Entries, Cause>| #[trigger]
                exchanged(transport, envelope, reply) && match reply {
                    Ok(e) => model::create::answers(e, r),
                    Err(cause) => r matches Err(f) && f@ == cause,
                },
        },
{
    let envelope = request.envelope()?;
    let reply = exchange(&envelope, transport);
    assert(exchanged(transport, entries(envelope), got(reply)));
    match reply {
        Ok(reply) => model::create::Response::from_reply(&reply),
        Err(f) => Err(f),
    }
}

/// Retrieves the entity with the given `_id`, as the document it is stored
/// as.
pub fn by_id<F: FnOnce(Vec<u8>) -> Result<Vec<u8>, String>>(
    id: ObjectId,
    application: &str,
    database: &str,
    collection: &str,
    transport: F,
) -> (r: Result<Document, Failure>)
    requires
        forall|bytes: Vec<u8>| call_requires(transport, (bytes,)),
    ensures
        exists|reply: Result<Entries, Cause>| #[trigger]
            exchanged(transport, identified(application@, database@, collection@, oid_bytes(id)), reply)
                && match reply {
                Ok(e) => is_entity(e, r),
                Err(cause) => r matches Err(f) && f@ == cause,
            },
{
    let envelope = identify(id, application, database, collection);
    let reply = exchange(&envelope, transport);
    assert(exchanged(transport, entries(envelope), got(reply)));
    match reply {
        Ok(reply) => entity_of(&reply),
        Err(f) => Err(f),
    }
}

/// Retrieves the entities that match `query`: at most `limit` of them,
/// ordered by `_id`, descending if asked.
pub fn filter<F: FnOnce(Vec<u8>) -> Result<Vec<u8>, String>>(
    query: Document,
    application: &str,
    database: &str,
    collection: &str,
    limit: u32,
    descending: bool,
    transport: F,
) -> (r: Result<Vec<Document>, Failure>)
    requires
        forall|bytes: Vec<u8>| call_requires(transport, (bytes,)),
    ensures
        exists|reply: Result<Entries, Cause>| #[trigger]
            exchanged(
                transport,
                filtered(entries(query), application@, database@, collection@, limit, descending),
                reply,
            ) && match reply {
                Ok(e) => is_entities(e, r),
                Err(cause) => r matches Err(f) && f@ == cause,
            },
{
    let envelope = select(&query, application, database, collection, limit, descending);
    let reply = exchange(&envelope, transport);
    assert(exchanged(transport, entries(envelope), got(reply)));
    match reply {
        Ok(reply) => entities_of(&reply),
        Err(f) => Err(f),
    }
}

/// Retrieves the entities whose `field` equals `content`: the filter is that
/// one equality.
pub fn property<F: FnOnce(Vec<u8>) -> Result<Vec<u8>, String>>(
    field: &str,
    content: Bson,
    application: &str,
    database: &str,
    collection: &str,
    limit: u32,
    descending: bool,
    transport: F,
) -> (r: Result<Vec<Document>, Failure>)
    requires
        forall|bytes: Vec<u8>| call_requires(transport, (bytes,)),
    ensures
        exists|reply: Result<Entries, Cause>| #[trigger]
            exchanged(
                transport,
                filtered(seq![(field@, value(content))], application@, database@, collection@, limit, descending),
                reply,
            ) && match reply {
                Ok(e) => is_entities(e, r),
                Err(cause) => r matches Err(f) && f@ == cause,
            },
{
    filter(single(field, content), application, database, collection, limit, descending, transport)
}

/// Replaces an entity.
///
/// Fails without using the transport where the request has no envelope
/// (the options have no document, or the entity carries no object
/// identifier under `_id`) or the envelope no encoding. Otherwise the
/// transport is handed the envelope's bytes, and the outcome is the
/// transport's failure, the decoder's, or what the reply amounts to
/// ([`model::update::answers`]).
pub fn update<F: FnOnce(Vec<u8>) -> Result<Vec<u8>, String>>(request: model::update::Request<Document, Document>, transport: F) -> (r:
    Result<model::update::Response<Document>, Failure>)
    requires
        forall|bytes: Vec<u8>| call_requires(transport, (bytes,)),
    ensures
        match request.envelope_of() {
            Err(cause) => r matches Err(f) && f@ == cause,
            Ok(envelope) => exists|reply: Result<Entries, Cause>| #[trigger]
                exchanged(transport, envelope, reply) && match reply {
                    Ok(e) => model::update::answers(e, r),
                    Err(cause) => r matches Err(f) && f@ == cause,
                },
        },
{
    let envelope = request.envelope()?;
    let reply = exchange(&envelope, transport);
    assert(exchanged(transport, entries(envelope), got(reply)));
    match reply {
        Ok(reply) => model::update::Response::from_reply(&reply),
        Err(f) => Err(f),
    }
}

/// Deletes the documents a request selects.
///
/// Fails without using the transport where the request has no envelope or
/// the envelope no encoding. Otherwise the transport is handed the
/// envelope's bytes, and the outcome is the transport's failure, the
/// decoder's, or what the reply amounts to ([`model::delete::answers`]).
pub fn delete<F: FnOnce(Vec<u8>) -> Result<Vec<u8>, String>>(request: model::delete::Request<Document>, transport: F) -> (r:
    Result<model::delete::Response, Failure>)
    requires
        forall|bytes: Vec<u8>| call_requires(transport, (bytes,)),
    ensures
        match request.envelope_of() {
            None => r matches Err(f) && f@ == Cause::Encoding,
            Some(envelope) => exists|reply: Result<Entries, Cause>| #[trigger]
                exchanged(transport, envelope, reply) && match reply {
                    Ok(e) => model::delete::answers(e, r),
                    Err(cause) => r matches Err(f) && f@ == cause,
                },
        },
{
    let envelope = request.envelope()?;
    let reply = exchange(&envelope, transport);
    assert(exchanged(transport, entries(envelope), got(reply)));
    match reply {
        Ok(reply) => model::delete::Response::from_reply(&reply),
        Err(f) => Err(f),
    }
}

/// The envelope that asks for the one document with a given `_id` to be
/// deleted: a delete whose query is that identifier, with every optional
/// field unset and both flags off.
pub open spec fn removal(application: Seq<char>, database: Seq<char>, collection: Seq<char>, id: Seq<u8>) -> Entries {
    framed(
        application,
        database,
        collection,
        Value::Document(seq![("_id"@, Value::ObjectId(id))]),
        Value::Null,
        None,
        None,
        false,
        false,
        Action::delete,
    )
}

/// Deletes the document with the given `_id`.
pub fn delete_by_id<F: FnOnce(Vec<u8>) -> Result<Vec<u8>, String>>(
    id: ObjectId,
    application: &str,
    database: &str,
    collection: &str,
    transport: F,
) -> (r: Result<model::delete::Response, Failure>)
    requires
        forall|bytes: Vec<u8>| call_requires(transport, (bytes,)),
    ensures
        exists|reply: Result<Entries, Cause>| #[trigger]
            exchanged(transport, removal(application@, database@, collection@, oid_bytes(id)), reply)
                && match reply {
                Ok(e) => model::delete::answers(e, r),
                Err(cause) => r matches Err(f) && f@ == cause,
            },
{
    let request = model::delete::Request::new(application, database, collection, single("_id", object_id(id)));
    assert(request.envelope_of() == Some(removal(application@, database@, collection@, oid_bytes(id))));
    delete(request, transport)
}

/// Retrieves one snapshot by the snapshot's own `_id`, from the database
/// and collection that hold the version history.
pub fn version_history_document<F: FnOnce(Vec<u8>) -> Result<Vec<u8>, String>>(
    id: ObjectId,
    application: &str,
    database: &str,
    collection: &str,
    transport: F,
) -> (r: Result<VersionHistory<Document>, Failure>)
    requires
        forall|bytes: Vec<u8>| call_requires(transport, (bytes,)),
    ensures
        exists|reply: Result<Entries, Cause>| #[trigger]
            exchanged(transport, identified(application@, database@, collection@, oid_bytes(id)), reply)
                && match reply {
                Ok(e) => is_snapshot(e, r),
                Err(cause) => r matches Err(f) && f@ == cause,
            },
{
    let envelope = identify(id, application, database, collection);
    let reply = exchange(&envelope, transport);
    assert(exchanged(transport, entries(envelope), got(reply)));
    match reply {
        Ok(reply) => snapshot_of(&reply),
        Err(f) => Err(f),
    }
}

/// Retrieves every snapshot of the entity with the given `_id`, oldest
/// first, from the database and collection that hold the version history.
pub fn version_history_for<F: FnOnce(Vec<u8>) -> Result<Vec<u8>, String>>(
    id: ObjectId,
    application: &str,
    database: &str,
    collection: &str,
    transport: F,
) -> (r: Result<Vec<VersionHistory<Document>>, Failure>)
    requires
        forall|bytes: Vec<u8>| call_requires(transport, (bytes,)),
    ensures
        exists|reply: Result<Entries, Cause>| #[trigger]
            exchanged(transport, chronicled(application@, database@, collection@, oid_bytes(id)), reply)
                && match reply {
                Ok(e) => is_snapshots(e, r),
                Err(cause) => r matches Err(f) && f@ == cause,
            },
{
    let envelope = chronicle(id, application, database, collection);
    let reply = exchange(&envelope, transport);
    assert(exchanged(transport, entries(envelope), got(reply)));
    match reply {
        Ok(reply) => snapshots_of(&reply),
        Err(f) => Err(f),
    }
}

} // verus!
