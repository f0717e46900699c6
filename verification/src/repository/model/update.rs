//! The request that replaces an entity, and the replies to it.

use vstd::prelude::*;
use bson::{Bson, Document};
use bson::oid::ObjectId;
use crate::action::Action;
use crate::document::{
    embedded, encoding, entries, get, insert, new_document, null, object_id, oid_bytes, value,
};
use crate::value::{Entries, Value, group_entries, has_key};
use crate::error::{Cause, Failure};
use crate::field::{
    amount_or_null, array_or_null, document_at, document_in, flag_at, flag_in, flag_or_null,
    identifier_at, identifier_in, optional_amount, optional_array, optional_flag, report, reported,
};
use crate::protocol::encode;
use crate::repository::model::{History, framed_payload_last, frame_payload_last};
use crate::repository::model::options::{
    Collation, WriteConcern, collation_or_null, concern_or_null, optional_collation,
    optional_concern,
};

verus! {

/// Modifiers of an update.
#[allow(non_snake_case)]
#[derive(Clone, Debug)]
pub struct Options {
    /// The write concern for the operation.
    pub writeConcern: Option<WriteConcern>,
    /// The collation to use for text data.
    pub collation: Option<Collation>,
    /// Filter documents that select the array elements to modify.
    pub arrayFilters: Option<Vec<Bson>>,
    /// The time limit of the operation, in milliseconds.
    pub maxTimeMS: Option<u64>,
    /// Whether every matching document is updated, not only the first.
    pub multi: Option<bool>,
    /// Whether a document is inserted where none matches.
    pub upsert: Option<bool>,
    /// Whether to ignore the schema validation rules of the collection.
    pub bypassDocumentValidation: Option<bool>,
}

/// The field names of the update options differ from one another.
proof fn lemma_option_keys()
    ensures
        "writeConcern"@ != "collation"@,
        "writeConcern"@ != "arrayFilters"@,
        "writeConcern"@ != "maxTimeMS"@,
        "writeConcern"@ != "multi"@,
        "writeConcern"@ != "upsert"@,
        "writeConcern"@ != "bypassDocumentValidation"@,
        "collation"@ != "arrayFilters"@,
        "collation"@ != "maxTimeMS"@,
        "collation"@ != "multi"@,
        "collation"@ != "upsert"@,
        "collation"@ != "bypassDocumentValidation"@,
        "arrayFilters"@ != "maxTimeMS"@,
        "arrayFilters"@ != "multi"@,
        "arrayFilters"@ != "upsert"@,
        "arrayFilters"@ != "bypassDocumentValidation"@,
        "maxTimeMS"@ != "multi"@,
        "maxTimeMS"@ != "upsert"@,
        "maxTimeMS"@ != "bypassDocumentValidation"@,
        "multi"@ != "upsert"@,
        "multi"@ != "bypassDocumentValidation"@,
        "upsert"@ != "bypassDocumentValidation"@,
{
    reveal_strlit("writeConcern");
    reveal_strlit("collation");
    reveal_strlit("arrayFilters");
    reveal_strlit("maxTimeMS");
    reveal_strlit("multi");
    reveal_strlit("upsert");
    reveal_strlit("bypassDocumentValidation");
    assert("writeConcern"@.len() == 12);
    assert("collation"@.len() == 9);
    assert("arrayFilters"@.len() == 12);
    assert("maxTimeMS"@.len() == 9);
    assert("multi"@.len() == 5);
    assert("upsert"@.len() == 6);
    assert("bypassDocumentValidation"@.len() == 24);
    assert("writeConcern"@[0] != "arrayFilters"@[0]);
    assert("collation"@[0] != "maxTimeMS"@[0]);
}

impl Options {
    /// The options as a document: every field under its own name, in
    /// declaration order, an unset field as null. There is none where the
    /// write concern has none or `maxTimeMS` exceeds what a 64-bit signed
    /// integer holds.
    pub open spec fn document(self) -> Option<Entries> {
        match (concern_or_null(self.writeConcern), amount_or_null(self.maxTimeMS)) {
            (Some(concern), Some(limit)) => Some(
                seq![
                    ("writeConcern"@, concern),
                    ("collation"@, collation_or_null(self.collation)),
                    ("arrayFilters"@, array_or_null(self.arrayFilters)),
                    ("maxTimeMS"@, limit),
                    ("multi"@, flag_or_null(self.multi)),
                    ("upsert"@, flag_or_null(self.upsert)),
                    ("bypassDocumentValidation"@, flag_or_null(self.bypassDocumentValidation)),
                ],
            ),
            _ => None,
        }
    }

    /// Builds the options' document, where they have one.
    pub fn to_document(&self) -> (r: Option<Document>)
        ensures
            match self.document() {
                Some(e) => r matches Some(d) && entries(d) == e,
                None => r is None,
            },
    {
        broadcast use group_entries;
        proof {
            lemma_option_keys();
        }
        let concern = optional_concern(&self.writeConcern)?;
        let limit = optional_amount(self.maxTimeMS)?;
        let mut d = new_document();
        insert(&mut d, "writeConcern", concern);
        insert(&mut d, "collation", optional_collation(&self.collation));
        insert(&mut d, "arrayFilters", optional_array(&self.arrayFilters));
        insert(&mut d, "maxTimeMS", limit);
        insert(&mut d, "multi", optional_flag(self.multi));
        insert(&mut d, "upsert", optional_flag(self.upsert));
        insert(&mut d, "bypassDocumentValidation", optional_flag(self.bypassDocumentValidation));
        Some(d)
    }
}

/// Optional update options as a value: their document, or null. Options
/// without document have no value.
pub open spec fn options_or_null(o: Option<Options>) -> Option<Value> {
    match o {
        Some(o) => match o.document() {
            Some(e) => Some(Value::Document(e)),
            None => None,
        },
        None => Some(Value::Null),
    }
}

/// The value of optional update options, where they have one.
pub fn optional_options(o: &Option<Options>) -> (b: Option<Bson>)
    ensures
        match options_or_null(*o) {
            Some(v) => b matches Some(found) && value(found) == v,
            None => b is None,
        },
{
    match o {
        Some(o) => match o.to_document() {
            Some(d) => Some(embedded(&d)),
            None => None,
        },
        None => Some(null()),
    }
}

/// The payload of an update: a filter on the entity's `_id`, and the entity
/// as the replacement.
pub open spec fn replacement(entity: Entries, id: Seq<u8>) -> Entries {
    seq![
        ("filter"@, Value::Document(seq![("_id"@, Value::ObjectId(id))])),
        ("replace"@, Value::Document(entity)),
    ]
}

/// Builds the payload of an update.
pub fn replace(entity: &Document, id: ObjectId) -> (d: Document)
    ensures
        entries(d) == replacement(entries(*entity), oid_bytes(id)),
{
    broadcast use group_entries;
    proof {
        reveal_strlit("filter");
        reveal_strlit("replace");
        assert("filter"@.len() != "replace"@.len());
    }
    let mut filter = new_document();
    insert(&mut filter, "_id", object_id(id));
    let mut d = new_document();
    insert(&mut d, "filter", embedded(&filter));
    insert(&mut d, "replace", embedded(entity));
    d
}

/// What is needed to replace one entity of a collection. `E` is the type
/// of the entity and `M` that of the metadata; a request can be serialised
/// once both are documents.
#[allow(non_snake_case)]
#[derive(Clone, Debug)]
pub struct Request<E, M> {
    /// The application or client name, for the service's metric record.
    pub application: String,
    /// The database against which the operation will be executed.
    pub database: String,
    /// The collection against which the operation will be executed.
    pub collection: String,
    /// The entity as it is to be. The object identifier under its `_id`
    /// selects the document to replace.
    pub document: E,
    /// Modifiers of the update.
    pub options: Option<Options>,
    /// Custom metadata for the version-history record.
    pub metadata: Option<M>,
    /// Identifier that ties the metric record to the caller's own tracing.
    pub correlationId: Option<String>,
    /// Whether the service is to skip the version-history record.
    pub skipVersion: bool,
    /// Whether the service is to skip the metric record.
    pub skipMetric: bool,
}

impl<E, M> Request<E, M> {
    /// A request to replace the stored entity by `entity`, with every
    /// optional field unset and both flags off.
    pub fn new(application: &str, database: &str, collection: &str, entity: E) -> (r: Request<E, M>)
        ensures
            r.application@ == application@,
            r.database@ == database@,
            r.collection@ == collection@,
            r.document == entity,
            r.options is None,
            r.metadata is None,
            r.correlationId is None,
            !r.skipVersion,
            !r.skipMetric,
    {
        Request {
            application: application.to_owned(),
            database: database.to_owned(),
            collection: collection.to_owned(),
            document: entity,
            options: None,
            metadata: None,
            correlationId: None,
            skipVersion: false,
            skipMetric: false,
        }
    }

}

impl Request<Document, Document> {
    /// The envelope of the request. Under `document` it holds the filter
    /// and the replacement in place of the entity. There is none where the
    /// options have no document, nor where the entity carries no object
    /// identifier under `_id`.
    pub open spec fn envelope_of(self) -> Result<Entries, Cause> {
        match options_or_null(self.options) {
            None => Err(Cause::Encoding),
            Some(options) => match identifier_in(entries(self.document), "_id"@) {
                None => Err(Cause::MissingIdentifier),
                Some(id) => Ok(
                    framed_payload_last(
                        self.application@,
                        self.database@,
                        self.collection@,
                        Value::Document(replacement(entries(self.document), id)),
                        options,
                        self.metadata,
                        self.correlationId,
                        self.skipVersion,
                        self.skipMetric,
                        Action::update,
                    ),
                ),
            },
        }
    }

    /// The bytes of the request's envelope, or why there are none.
    pub open spec fn wire(self) -> Result<Seq<u8>, Cause> {
        match self.envelope_of() {
            Ok(e) => match encoding(e) {
                Some(bytes) => Ok(bytes),
                None => Err(Cause::Encoding),
            },
            Err(cause) => Err(cause),
        }
    }

    /// Builds the request's envelope.
    pub fn envelope(&self) -> (r: Result<Document, Failure>)
        ensures
            match self.envelope_of() {
                Ok(e) => r matches Ok(d) && entries(d) == e,
                Err(cause) => r matches Err(f) && f@ == cause,
            },
    {
        let options = match optional_options(&self.options) {
            Some(options) => options,
            None => {
                return Err(Failure::Encoding("update options out of range".to_owned()));
            },
        };
        let id = match identifier_at(&self.document, "_id") {
            Some(id) => id,
            None => {
                return Err(Failure::MissingIdentifier);
            },
        };
        let payload = replace(&self.document, id);
        Ok(
            frame_payload_last(
                self.application.as_str(),
                self.database.as_str(),
                self.collection.as_str(),
                embedded(&payload),
                options,
                &self.metadata,
                &self.correlationId,
                self.skipVersion,
                self.skipMetric,
                Action::update,
            ),
        )
    }

    /// Serialises the request into the bytes that go over the wire.
    pub fn serialise(&self) -> (r: Result<Vec<u8>, Failure>)
        ensures
            match r {
                Ok(bytes) => self.wire() == Ok::<Seq<u8>, Cause>(bytes@),
                Err(f) => self.wire() == Err::<Seq<u8>, Cause>(f@),
            },
    {
        let d = self.envelope()?;
        encode(&d)
    }
}

/// Assembles a [`Request`] step by step.
pub struct RequestBuilder<E, M> {
    request: Request<E, M>,
}

impl<E, M> RequestBuilder<E, M> {
    /// The request as assembled so far.
    pub closed spec fn pending(self) -> Request<E, M> {
        self.request
    }

    /// Starts from the request [`Request::new`] gives.
    pub fn new(application: &str, database: &str, collection: &str, entity: E) -> (b: RequestBuilder<E, M>)
        ensures
            b.pending().application@ == application@,
            b.pending().database@ == database@,
            b.pending().collection@ == collection@,
            b.pending().document == entity,
            b.pending().options is None,
            b.pending().metadata is None,
            b.pending().correlationId is None,
            !b.pending().skipVersion,
            !b.pending().skipMetric,
    {
        RequestBuilder { request: Request::new(application, database, collection, entity) }
    }

    /// Sets the options.
    pub fn with_options(self, options: Options) -> (b: RequestBuilder<E, M>)
        ensures
            b.pending() == (Request { options: Some(options), ..self.pending() }),
    {
        let mut request = self.request;
        request.options = Some(options);
        RequestBuilder { request }
    }

    /// Sets the metadata.
    pub fn with_metadata(self, metadata: M) -> (b: RequestBuilder<E, M>)
        ensures
            b.pending() == (Request { metadata: Some(metadata), ..self.pending() }),
    {
        let mut request = self.request;
        request.metadata = Some(metadata);
        RequestBuilder { request }
    }

    /// Sets the correlation identifier.
    pub fn with_correlation_id(self, correlation_id: &str) -> (b: RequestBuilder<E, M>)
        ensures
            b.pending().correlationId matches Some(id) && id@ == correlation_id@,
            b.pending() == (Request { correlationId: b.pending().correlationId, ..self.pending() }),
    {
        let mut request = self.request;
        request.correlationId = Some(correlation_id.to_owned());
        RequestBuilder { request }
    }

    /// Sets whether the version-history record is skipped.
    pub fn skip_version(self, skip: bool) -> (b: RequestBuilder<E, M>)
        ensures
            b.pending() == (Request { skipVersion: skip, ..self.pending() }),
    {
        let mut request = self.request;
        request.skipVersion = skip;
        RequestBuilder { request }
    }

    /// Sets whether the metric record is skipped.
    pub fn skip_metric(self, skip: bool) -> (b: RequestBuilder<E, M>)
        ensures
            b.pending() == (Request { skipMetric: skip, ..self.pending() }),
    {
        let mut request = self.request;
        request.skipMetric = skip;
        RequestBuilder { request }
    }

    /// Hands out the assembled request.
    pub fn build(self) -> (r: Request<E, M>)
        ensures
            r == self.pending(),
    {
        self.request
    }
}

/// What the service answers to an update that wrote a version-history
/// record: the entity as stored, and the record.
#[derive(Clone, Debug)]
pub struct ResponseWithHistory<E> {
    pub document: E,
    pub history: History,
}

/// What the service answers to an update that skipped versioning.
#[allow(non_snake_case)]
#[derive(Clone, Debug)]
pub struct ResponseNoHistory {
    /// That no version-history record was written. Always `true`.
    pub skipVersion: bool,
}

/// What the service answers to an update.
#[derive(Debug)]
pub enum Response<E> {
    /// The entity was replaced and a version-history record written.
    WithHistory(ResponseWithHistory<E>),
    /// The entity was replaced without a version-history record.
    NoHistory(ResponseNoHistory),
}

impl ResponseWithHistory<Document> {
    /// Whether a document can be read as this answer: `document` is an
    /// embedded document and `history` one that reads as an audit record.
    pub open spec fn readable(e: Entries) -> bool {
        &&& document_in(e, "document"@) is Some
        &&& document_in(e, "history"@) matches Some(h) && History::readable(h)
    }

    /// Whether this is the answer a document holds.
    pub open spec fn describes(self, e: Entries) -> bool {
        &&& document_in(e, "document"@) == Some(entries(self.document))
        &&& document_in(e, "history"@) matches Some(h) && self.history.describes(h)
    }

    /// Reads the answer from a document, leaving the entity as the document
    /// it came as.
    pub fn from_document(d: &Document) -> (r: Option<ResponseWithHistory<Document>>)
        ensures
            match r {
                Some(w) => w.describes(entries(*d)),
                None => !ResponseWithHistory::<Document>::readable(entries(*d)),
            },
    {
        let document = document_at(d, "document")?;
        let record = document_at(d, "history")?;
        let history = History::from_document(&record)?;
        Some(ResponseWithHistory { document, history })
    }
}

impl ResponseNoHistory {
    /// Whether a document can be read as this acknowledgement:
    /// `skipVersion` is a boolean.
    pub open spec fn readable(e: Entries) -> bool {
        flag_in(e, "skipVersion"@) is Some
    }

    /// Whether this is the acknowledgement a document holds.
    pub open spec fn describes(self, e: Entries) -> bool {
        flag_in(e, "skipVersion"@) == Some(self.skipVersion)
    }

    /// Reads the acknowledgement from a document.
    pub fn from_document(d: &Document) -> (r: Option<ResponseNoHistory>)
        ensures
            match r {
                Some(n) => n.describes(entries(*d)),
                None => !ResponseNoHistory::readable(entries(*d)),
            },
    {
        let flag = flag_at(d, "skipVersion")?;
        Some(ResponseNoHistory { skipVersion: flag })
    }
}

/// Which answer to an update a reply is.
pub enum Kind {
    /// The reply has the key `document`: the entity and its audit record.
    WithHistory,
    /// The reply has the key `skipVersion` and not `document`: an
    /// acknowledgement without history.
    NoHistory,
    /// The reply has the key `error` and neither of the above.
    Error,
    /// The reply has none of the three keys.
    Unknown,
}

/// The kind of a reply: the first of `document`, `skipVersion`, `error`
/// among its keys.
pub open spec fn kind_of(reply: Entries) -> Kind {
    if has_key(reply, "document"@) {
        Kind::WithHistory
    } else if has_key(reply, "skipVersion"@) {
        Kind::NoHistory
    } else if has_key(reply, "error"@) {
        Kind::Error
    } else {
        Kind::Unknown
    }
}

/// Whether `r` is what a reply to an update amounts to. A reply that names
/// a kind but cannot be read as that kind, and one of unknown kind, are
/// protocol violations; a reported error is the service's failure.
pub open spec fn answers(reply: Entries, r: Result<Response<Document>, Failure>) -> bool {
    match kind_of(reply) {
        Kind::WithHistory => if ResponseWithHistory::<Document>::readable(reply) {
            r matches Ok(Response::WithHistory(w)) && w.describes(reply)
        } else {
            r matches Err(f) && f@ == Cause::ProtocolViolation
        },
        Kind::NoHistory => if ResponseNoHistory::readable(reply) {
            r matches Ok(Response::NoHistory(n)) && n.describes(reply)
        } else {
            r matches Err(f) && f@ == Cause::ProtocolViolation
        },
        Kind::Error => r matches Err(f) && f@ == reported(reply),
        Kind::Unknown => r matches Err(f) && f@ == Cause::ProtocolViolation,
    }
}

impl Response<Document> {
    /// Reads the reply to an update.
    pub fn from_reply(reply: &Document) -> (r: Result<Response<Document>, Failure>)
        ensures
            answers(entries(*reply), r),
    {
        if get(reply, "document").is_some() {
            match ResponseWithHistory::from_document(reply) {
                Some(w) => Ok(Response::WithHistory(w)),
                None => Err(Failure::ProtocolViolation),
            }
        } else if get(reply, "skipVersion").is_some() {
            match ResponseNoHistory::from_document(reply) {
                Some(n) => Ok(Response::NoHistory(n)),
                None => Err(Failure::ProtocolViolation),
            }
        } else if get(reply, "error").is_some() {
            Err(report(reply))
        } else {
            Err(Failure::ProtocolViolation)
        }
    }
}

} // verus!
