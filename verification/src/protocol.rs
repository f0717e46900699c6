//! The exchange with the service: a request becomes an envelope, the
//! envelope becomes bytes, the bytes go out through the caller's transport,
//! and what comes back is decoded and classified.

use vstd::prelude::*;
use bson::Document;
use crate::document::{
    boolean, decoding, describe, embedded, encoding, entries, from_reader, insert, new_document,
    text, to_vec,
};
use crate::value::{Entries, Value, group_entries};
use crate::error::{Cause, Failure, outcome};
use crate::request::Request;
use crate::response::{Reply, Response, discriminated, discriminate};

verus! {

/// The keys of an envelope differ from one another.
pub(crate) proof fn lemma_envelope_keys()
    ensures
        "database"@ != "collection"@,
        "database"@ != "document"@,
        "database"@ != "action"@,
        "database"@ != "skipVersion"@,
        "database"@ != "skipMetric"@,
        "database"@ != "options"@,
        "database"@ != "metadata"@,
        "database"@ != "correlationId"@,
        "collection"@ != "document"@,
        "collection"@ != "action"@,
        "collection"@ != "skipVersion"@,
        "collection"@ != "skipMetric"@,
        "collection"@ != "options"@,
        "collection"@ != "metadata"@,
        "collection"@ != "correlationId"@,
        "document"@ != "action"@,
        "document"@ != "skipVersion"@,
        "document"@ != "skipMetric"@,
        "document"@ != "options"@,
        "document"@ != "metadata"@,
        "document"@ != "correlationId"@,
        "action"@ != "skipVersion"@,
        "action"@ != "skipMetric"@,
        "action"@ != "options"@,
        "action"@ != "metadata"@,
        "action"@ != "correlationId"@,
        "skipVersion"@ != "skipMetric"@,
        "skipVersion"@ != "options"@,
        "skipVersion"@ != "metadata"@,
        "skipVersion"@ != "correlationId"@,
        "skipMetric"@ != "options"@,
        "skipMetric"@ != "metadata"@,
        "skipMetric"@ != "correlationId"@,
        "options"@ != "metadata"@,
        "options"@ != "correlationId"@,
        "metadata"@ != "correlationId"@,
{
    reveal_strlit("database");
    reveal_strlit("collection");
    reveal_strlit("document");
    reveal_strlit("action");
    reveal_strlit("skipVersion");
    reveal_strlit("skipMetric");
    reveal_strlit("options");
    reveal_strlit("metadata");
    reveal_strlit("correlationId");
    assert("database"@.len() == 8);
    assert("collection"@.len() == 10);
    assert("document"@.len() == 8);
    assert("action"@.len() == 6);
    assert("skipVersion"@.len() == 11);
    assert("skipMetric"@.len() == 10);
    assert("options"@.len() == 7);
    assert("metadata"@.len() == 8);
    assert("correlationId"@.len() == 13);
    assert("database"@[1] != "document"@[1]);
    assert("database"@[0] != "metadata"@[0]);
    assert("collection"@[0] != "skipMetric"@[0]);
    assert("document"@[0] != "metadata"@[0]);
}

/// The mandatory part of a request's envelope.
pub open spec fn envelope_base(r: Request) -> Entries {
    seq![
        ("database"@, Value::Text(r.database@)),
        ("collection"@, Value::Text(r.collection@)),
        ("document"@, Value::Document(entries(r.document))),
        ("action"@, Value::Text(r.action.tag())),
        ("skipVersion"@, Value::Boolean(r.skipVersion)),
        ("skipMetric"@, Value::Boolean(r.skipMetric)),
    ]
}

/// The entry that carries an optional document, if the document is there.
pub open spec fn with_document(e: Entries, key: Seq<char>, d: Option<Document>) -> Entries {
    match d {
        Some(d) => e.push((key, Value::Document(entries(d)))),
        None => e,
    }
}

/// The entry that carries an optional string, if the string is there.
pub open spec fn with_text(e: Entries, key: Seq<char>, s: Option<String>) -> Entries {
    match s {
        Some(s) => e.push((key, Value::Text(s@))),
        None => e,
    }
}

/// The envelope of a request: the mandatory keys in their fixed order, then
/// each optional field that is set.
pub open spec fn envelope_of(r: Request) -> Entries {
    with_text(
        with_document(with_document(envelope_base(r), "options"@, r.options), "metadata"@, r.metadata),
        "correlationId"@,
        r.correlationId,
    )
}

/// Builds the envelope of a request.
pub fn envelope(request: &Request) -> (d: Document)
    ensures
        entries(d) == envelope_of(*request),
{
    broadcast use group_entries;
    proof {
        lemma_envelope_keys();
    }
    let mut d = new_document();
    insert(&mut d, "database", text(request.database.as_str()));
    insert(&mut d, "collection", text(request.collection.as_str()));
    insert(&mut d, "document", embedded(&request.document));
    insert(&mut d, "action", text(request.action.name()));
    insert(&mut d, "skipVersion", boolean(request.skipVersion));
    insert(&mut d, "skipMetric", boolean(request.skipMetric));
    assert(entries(d) == envelope_base(*request));
    match &request.options {
        Some(options) => {
            insert(&mut d, "options", embedded(options));
        },
        None => {},
    }
    match &request.metadata {
        Some(metadata) => {
            insert(&mut d, "metadata", embedded(metadata));
        },
        None => {},
    }
    match &request.correlationId {
        Some(id) => {
            insert(&mut d, "correlationId", text(id.as_str()));
        },
        None => {},
    }
    d
}

/// Encodes an envelope into the bytes that go over the wire.
pub fn encode(envelope: &Document) -> (r: Result<Vec<u8>, Failure>)
    ensures
        match r {
            Ok(bytes) => encoding(entries(*envelope)) == Some(bytes@),
            Err(f) => encoding(entries(*envelope)) is None && f@ == Cause::Encoding,
        },
{
    match to_vec(envelope) {
        Ok(bytes) => Ok(bytes),
        Err(e) => Err(Failure::Encoding(describe(&e))),
    }
}

/// Decodes the bytes of a reply into a document.
pub fn decode(bytes: &[u8]) -> (r: Result<Document, Failure>)
    ensures
        match r {
            Ok(d) => decoding(bytes@) == Some(entries(d)),
            Err(f) => decoding(bytes@) is None && f@ == Cause::Decode,
        },
{
    match from_reader(bytes) {
        Ok(d) => Ok(d),
        Err(e) => Err(Failure::Decode(describe(&e))),
    }
}

/// A decoded reply, or the failure to obtain one, as contracts speak of it.
pub open spec fn got(r: Result<Document, Failure>) -> Result<Entries, Cause> {
    match r {
        Ok(d) => Ok(entries(d)),
        Err(f) => Err(f@),
    }
}

/// What the transport's answer amounts to: its own failure passed on
/// unchanged, or the document its bytes encode.
pub open spec fn delivered(answer: Result<Vec<u8>, String>) -> Result<Entries, Cause> {
    match answer {
        Err(text) => Err(Cause::Transport(text@)),
        Ok(bytes) => match decoding(bytes@) {
            Some(reply) => Ok(reply),
            None => Err(Cause::Decode),
        },
    }
}

/// Takes the transport's answer: a transport failure is passed on without
/// any decoding, anything else is decoded.
pub fn deliver(answer: Result<Vec<u8>, String>) -> (r: Result<Document, Failure>)
    ensures
        got(r) == delivered(answer),
{
    match answer {
        Err(text) => Err(Failure::Transport(text)),
        Ok(bytes) => decode(bytes.as_slice()),
    }
}

/// Whether `reply` can come of putting `envelope` through `transport`: an
/// envelope without encoding fails before the transport is used; otherwise
/// the transport is handed exactly the envelope's bytes, and the reply is
/// what its answer amounts to.
pub open spec fn exchanged<F: FnOnce(Vec<u8>) -> Result<Vec<u8>, String>>(
    transport: F,
    envelope: Entries,
    reply: Result<Entries, Cause>,
) -> bool {
    match encoding(envelope) {
        None => reply == Err::<Entries, Cause>(Cause::Encoding),
        Some(wire) => exists|sent: Vec<u8>, answer: Result<Vec<u8>, String>|
            sent@ == wire && #[trigger] call_ensures(transport, (sent,), answer) && reply == delivered(
                answer,
            ),
    }
}

/// Sends an envelope through the transport and decodes the reply.
pub fn exchange<F: FnOnce(Vec<u8>) -> Result<Vec<u8>, String>>(envelope: &Document, transport: F) -> (r:
    Result<Document, Failure>)
    requires
        forall|bytes: Vec<u8>| call_requires(transport, (bytes,)),
    ensures
        exchanged(transport, entries(*envelope), got(r)),
{
    match encode(envelope) {
        Err(f) => Err(f),
        Ok(bytes) => {
            let ghost sent = bytes;
            let answer = transport(bytes);
            let r = deliver(answer);
            assert(sent@ == encoding(entries(*envelope)).unwrap() && call_ensures(transport, (sent,), answer)
                && got(r) == delivered(answer));
            r
        },
    }
}

/// What an exchange comes to once the reply is classified.
pub open spec fn concluded(reply: Result<Entries, Cause>) -> Result<Reply, Cause> {
    match reply {
        Ok(reply) => discriminated(reply),
        Err(cause) => Err(cause),
    }
}

/// Classifies the reply of an exchange, passing a failure on.
pub fn conclude(reply: Result<Document, Failure>) -> (r: Result<Response, Failure>)
    ensures
        outcome(r) == concluded(got(reply)),
{
    match reply {
        Ok(reply) => discriminate(reply),
        Err(f) => Err(f),
    }
}

/// Executes a request: builds its envelope, sends it through `transport`
/// and classifies the reply.
///
/// `transport` submits the encoded request and returns the encoded reply,
/// or a description of why it could not. It is called at most once, and not
/// at all when the envelope cannot be encoded.
pub fn execute<F: FnOnce(Vec<u8>) -> Result<Vec<u8>, String>>(request: Request, transport: F) -> (r: Result<
    Response,
    Failure,
>)
    requires
        forall|bytes: Vec<u8>| call_requires(transport, (bytes,)),
    ensures
        exists|reply: Result<Entries, Cause>| #[trigger]
            exchanged(transport, envelope_of(request), reply) && outcome(r) == concluded(reply),
{
    let d = envelope(&request);
    let reply = exchange(&d, transport);
    assert(exchanged(transport, envelope_of(request), got(reply)));
    conclude(reply)
}

} // verus!
