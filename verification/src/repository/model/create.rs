//! The request that inserts an entity, and the replies to it.

use vstd::prelude::*;
use bson::{Bson, Document};
use bson::oid::ObjectId;
use crate::action::Action;
use crate::document::{
    embedded, encoding, entries, get, insert, new_document, null, oid_bytes, value,
};
use crate::value::{Entries, Value, group_entries, has_key};
use crate::error::{Cause, Failure};
use crate::field::{
    flag_at, flag_in, flag_or_null, identifier_at, identifier_in, optional_flag, report, reported,
};
use crate::protocol::encode;
use crate::repository::model::{History, framed, frame};
use crate::repository::model::options::{WriteConcern, concern_or_null, optional_concern};

verus! {

/// Modifiers of an insert.
#[allow(non_snake_case)]
#[derive(Clone, Debug)]
pub struct Options {
    /// The write concern for the operation.
    pub writeConcern: Option<WriteConcern>,
    /// Whether to ignore the schema validation rules of the collection.
    pub bypassValidation: Option<bool>,
    /// Whether the inserts of a batch stop at the first that fails.
    pub ordered: Option<bool>,
}

/// The field names of the insert options differ from one another.
proof fn lemma_option_keys()
    ensures
        "writeConcern"@ != "bypassValidation"@,
        "writeConcern"@ != "ordered"@,
        "bypassValidation"@ != "ordered"@,
{
    reveal_strlit("writeConcern");
    reveal_strlit("bypassValidation");
    reveal_strlit("ordered");
    assert("writeConcern"@.len() == 12);
    assert("bypassValidation"@.len() == 16);
    assert("ordered"@.len() == 7);
}

impl Options {
    /// The options as a document: every field under its own name, in
    /// declaration order, an unset field as null. There is none where the
    /// write concern has none.
    pub open spec fn document(self) -> Option<Entries> {
        match concern_or_null(self.writeConcern) {
            Some(concern) => Some(
                seq![
                    ("writeConcern"@, concern),
                    ("bypassValidation"@, flag_or_null(self.bypassValidation)),
                    ("ordered"@, flag_or_null(self.ordered)),
                ],
            ),
            None => None,
        }
    }

    /// Builds the options' document, where they have one.
    pub fn to_document(&self) -> (r: Option<Document>)
        ensures
            match self.document() {
                Some(e) => r matches Some(d) && entries(d) == e,
                None => r is None,
            },
    {
        broadcast use group_entries;
        proof {
            lemma_option_keys();
        }
        let concern = optional_concern(&self.writeConcern)?;
        let mut d = new_document();
        insert(&mut d, "writeConcern", concern);
        insert(&mut d, "bypassValidation", optional_flag(self.bypassValidation));
        insert(&mut d, "ordered", optional_flag(self.ordered));
        Some(d)
    }
}

/// Optional insert options as a value: their document, or null. Options
/// without document have no value.
pub open spec fn options_or_null(o: Option<Options>) -> Option<Value> {
    match o {
        Some(o) => match o.document() {
            Some(e) => Some(Value::Document(e)),
            None => None,
        },
        None => Some(Value::Null),
    }
}

/// The value of optional insert options, where they have one.
pub fn optional_options(o: &Option<Options>) -> (b: Option<Bson>)
    ensures
        match options_or_null(*o) {
            Some(v) => b matches Some(found) && value(found) == v,
            None => b is None,
        },
{
    match o {
        Some(o) => match o.to_document() {
            Some(d) => Some(embedded(&d)),
            None => None,
        },
        None => Some(null()),
    }
}

/// What is needed to insert one entity into a collection. `E` is the type
/// of the entity and `M` that of the metadata; a request can be serialised
/// once both are documents.
#[allow(non_snake_case)]
#[derive(Clone, Debug)]
pub struct Request<E, M> {
    /// The application or client name, for the service's metric record.
    pub application: String,
    /// The database against which the operation will be executed.
    pub database: String,
    /// The collection against which the operation will be executed.
    pub collection: String,
    /// The entity to insert. It must carry an object identifier under
    /// `_id`; the service, not this library, holds it to that.
    pub document: E,
    /// Modifiers of the insert.
    pub options: Option<Options>,
    /// Custom metadata for the version-history record.
    pub metadata: Option<M>,
    /// Identifier that ties the metric record to the caller's own tracing.
    pub correlationId: Option<String>,
    /// Whether the service is to skip the version-history record.
    pub skipVersion: bool,
    /// Whether the service is to skip the metric record.
    pub skipMetric: bool,
}

impl<E, M> Request<E, M> {
    /// A request to insert `entity`, with every optional field unset and
    /// both flags off.
    pub fn new(application: &str, database: &str, collection: &str, entity: E) -> (r: Request<E, M>)
        ensures
            r.application@ == application@,
            r.database@ == database@,
            r.collection@ == collection@,
            r.document == entity,
            r.options is None,
            r.metadata is None,
            r.correlationId is None,
            !r.skipVersion,
            !r.skipMetric,
    {
        Request {
            application: application.to_owned(),
            database: database.to_owned(),
            collection: collection.to_owned(),
            document: entity,
            options: None,
            metadata: None,
            correlationId: None,
            skipVersion: false,
            skipMetric: false,
        }
    }

}

impl Request<Document, Document> {
    /// The envelope of the request: the entity passes through unchanged
    /// under `document`. There is none where the options have no document.
    pub open spec fn envelope_of(self) -> Option<Entries> {
        match options_or_null(self.options) {
            Some(options) => Some(
                framed(
                    self.application@,
                    self.database@,
                    self.collection@,
                    Value::Document(entries(self.document)),
                    options,
                    self.metadata,
                    self.correlationId,
                    self.skipVersion,
                    self.skipMetric,
                    Action::create,
                ),
            ),
            None => None,
        }
    }

    /// The bytes of the request's envelope, or why there are none.
    pub open spec fn wire(self) -> Result<Seq<u8>, Cause> {
        match self.envelope_of() {
            Some(e) => match encoding(e) {
                Some(bytes) => Ok(bytes),
                None => Err(Cause::Encoding),
            },
            None => Err(Cause::Encoding),
        }
    }

    /// Builds the request's envelope.
    pub fn envelope(&self) -> (r: Result<Document, Failure>)
        ensures
            match self.envelope_of() {
                Some(e) => r matches Ok(d) && entries(d) == e,
                None => r matches Err(f) && f@ == Cause::Encoding,
            },
    {
        match optional_options(&self.options) {
            Some(options) => Ok(
                frame(
                    self.application.as_str(),
                    self.database.as_str(),
                    self.collection.as_str(),
                    embedded(&self.document),
                    options,
                    &self.metadata,
                    &self.correlationId,
                    self.skipVersion,
                    self.skipMetric,
                    Action::create,
                ),
            ),
            None => Err(Failure::Encoding("write concern out of range".to_owned())),
        }
    }

    /// Serialises the request into the bytes that go over the wire.
    pub fn serialise(&self) -> (r: Result<Vec<u8>, Failure>)
        ensures
            match r {
                Ok(bytes) => self.wire() == Ok::<Seq<u8>, Cause>(bytes@),
                Err(f) => self.wire() == Err::<Seq<u8>, Cause>(f@),
            },
    {
        let d = self.envelope()?;
        encode(&d)
    }
}

/// Assembles a [`Request`] step by step.
pub struct RequestBuilder<E, M> {
    request: Request<E, M>,
}

impl<E, M> RequestBuilder<E, M> {
    /// The request as assembled so far.
    pub closed spec fn pending(self) -> Request<E, M> {
        self.request
    }

    /// Starts from the request [`Request::new`] gives.
    pub fn new(application: &str, database: &str, collection: &str, entity: E) -> (b: RequestBuilder<E, M>)
        ensures
            b.pending().application@ == application@,
            b.pending().database@ == database@,
            b.pending().collection@ == collection@,
            b.pending().document == entity,
            b.pending().options is None,
            b.pending().metadata is None,
            b.pending().correlationId is None,
            !b.pending().skipVersion,
            !b.pending().skipMetric,
    {
        RequestBuilder { request: Request::new(application, database, collection, entity) }
    }

    /// Sets the options.
    pub fn with_options(self, options: Options) -> (b: RequestBuilder<E, M>)
        ensures
            b.pending() == (Request { options: Some(options), ..self.pending() }),
    {
        let mut request = self.request;
        request.options = Some(options);
        RequestBuilder { request }
    }

    /// Sets the metadata.
    pub fn with_metadata(self, metadata: M) -> (b: RequestBuilder<E, M>)
        ensures
            b.pending() == (Request { metadata: Some(metadata), ..self.pending() }),
    {
        let mut request = self.request;
        request.metadata = Some(metadata);
        RequestBuilder { request }
    }

    /// Sets the correlation identifier.
    #[allow(non_snake_case)]
    pub fn with_correlation_id(self, correlationId: String) -> (b: RequestBuilder<E, M>)
        ensures
            b.pending() == (Request { correlationId: Some(correlationId), ..self.pending() }),
    {
        let mut request = self.request;
        request.correlationId = Some(correlationId);
        RequestBuilder { request }
    }

    /// Sets whether the version-history record is skipped.
    #[allow(non_snake_case)]
    pub fn with_skip_version(self, skipVersion: bool) -> (b: RequestBuilder<E, M>)
        ensures
            b.pending() == (Request { skipVersion, ..self.pending() }),
    {
        let mut request = self.request;
        request.skipVersion = skipVersion;
        RequestBuilder { request }
    }

    /// Sets whether the metric record is skipped.
    #[allow(non_snake_case)]
    pub fn with_skip_metric(self, skipMetric: bool) -> (b: RequestBuilder<E, M>)
        ensures
            b.pending() == (Request { skipMetric, ..self.pending() }),
    {
        let mut request = self.request;
        request.skipMetric = skipMetric;
        RequestBuilder { request }
    }

    /// Hands out the assembled request.
    pub fn build(self) -> (r: Request<E, M>)
        ensures
            r == self.pending(),
    {
        self.request
    }
}

/// What the service answers to an insert that skipped versioning.
#[allow(non_snake_case)]
#[derive(Clone, Debug)]
pub struct ResponseNoHistory {
    /// The `_id` of the entity that was created.
    pub id: ObjectId,
    /// That no version-history record was written. Always `true`.
    pub skipVersion: bool,
}

impl ResponseNoHistory {
    /// Whether a document can be read as this acknowledgement: `_id` is an
    /// object identifier and `skipVersion` a boolean.
    pub open spec fn readable(e: Entries) -> bool {
        &&& identifier_in(e, "_id"@) is Some
        &&& flag_in(e, "skipVersion"@) is Some
    }

    /// Whether this is the acknowledgement a document holds.
    pub open spec fn describes(self, e: Entries) -> bool {
        &&& identifier_in(e, "_id"@) == Some(oid_bytes(self.id))
        &&& flag_in(e, "skipVersion"@) == Some(self.skipVersion)
    }

    /// Reads the acknowledgement from a document.
    pub fn from_document(d: &Document) -> (r: Option<ResponseNoHistory>)
        ensures
            match r {
                Some(n) => n.describes(entries(*d)),
                None => !ResponseNoHistory::readable(entries(*d)),
            },
    {
        let id = identifier_at(d, "_id")?;
        let flag = flag_at(d, "skipVersion")?;
        Some(ResponseNoHistory { id, skipVersion: flag })
    }
}

/// What the service answers to an insert.
#[derive(Debug)]
pub enum Response {
    /// The entity was created and a version-history record written.
    WithHistory(History),
    /// The entity was created without a version-history record.
    NoHistory(ResponseNoHistory),
}

/// Which answer to an insert a reply is.
pub enum Kind {
    /// The reply has the key `entity`: an audit record.
    WithHistory,
    /// The reply has the key `_id` and not `entity`: an acknowledgement
    /// without history.
    NoHistory,
    /// The reply has the key `error` and neither of the above.
    Error,
    /// The reply has none of the three keys.
    Unknown,
}

/// The kind of a reply: the first of `entity`, `_id`, `error` among its
/// keys.
pub open spec fn kind_of(reply: Entries) -> Kind {
    if has_key(reply, "entity"@) {
        Kind::WithHistory
    } else if has_key(reply, "_id"@) {
        Kind::NoHistory
    } else if has_key(reply, "error"@) {
        Kind::Error
    } else {
        Kind::Unknown
    }
}

/// Whether `r` is what a reply to an insert amounts to. A reply that names
/// a kind but cannot be read as that kind, and one of unknown kind, are
/// protocol violations; a reported error is the service's failure.
pub open spec fn answers(reply: Entries, r: Result<Response, Failure>) -> bool {
    match kind_of(reply) {
        Kind::WithHistory => if History::readable(reply) {
            r matches Ok(Response::WithHistory(h)) && h.describes(reply)
        } else {
            r matches Err(f) && f@ == Cause::ProtocolViolation
        },
        Kind::NoHistory => if ResponseNoHistory::readable(reply) {
            r matches Ok(Response::NoHistory(n)) && n.describes(reply)
        } else {
            r matches Err(f) && f@ == Cause::ProtocolViolation
        },
        Kind::Error => r matches Err(f) && f@ == reported(reply),
        Kind::Unknown => r matches Err(f) && f@ == Cause::ProtocolViolation,
    }
}

impl Response {
    /// Reads the reply to an insert.
    pub fn from_reply(reply: &Document) -> (r: Result<Response, Failure>)
        ensures
            answers(entries(*reply), r),
    {
        if get(reply, "entity").is_some() {
            match History::from_document(reply) {
                Some(h) => Ok(Response::WithHistory(h)),
                None => Err(Failure::ProtocolViolation),
            }
        } else if get(reply, "_id").is_some() {
            match ResponseNoHistory::from_document(reply) {
                Some(n) => Ok(Response::NoHistory(n)),
                None => Err(Failure::ProtocolViolation),
            }
        } else if get(reply, "error").is_some() {
            Err(report(reply))
        } else {
            Err(Failure::ProtocolViolation)
        }
    }
}

} // verus!
