//! The request that deletes documents, and the reply to it.

use vstd::prelude::*;
use bson::{Bson, Document};
use bson::oid::ObjectId;
use crate::action::Action;
use crate::document::{embedded, encoding, entries, get, insert, new_document, null, value};
use crate::value::{Entries, Value, group_entries, has_key};
use crate::error::{Cause, Failure};
use crate::field::{array_in, array_at, reported, report};
use crate::protocol::encode;
use crate::repository::model::{
    History, all_histories, all_identifiers, are_histories, are_identifiers, frame, framed,
    histories, identifiers,
};
use crate::repository::model::options::{
    Collation, WriteConcern, collation_or_null, concern_or_null, optional_collation,
    optional_concern,
};

verus! {

/// Modifiers of a delete.
#[allow(non_snake_case)]
#[derive(Clone, Debug)]
pub struct Options {
    /// The write concern for the operation.
    pub writeConcern: Option<WriteConcern>,
    /// The collation to use for text data.
    pub collation: Option<Collation>,
}

impl Options {
    /// The options as a document: every field under its own name, in
    /// declaration order, an unset field as null. There is none where the
    /// write concern has none.
    pub open spec fn document(self) -> Option<Entries> {
        match concern_or_null(self.writeConcern) {
            Some(concern) => Some(
                seq![("writeConcern"@, concern), ("collation"@, collation_or_null(self.collation))],
            ),
            None => None,
        }
    }

    /// Builds the options' document, where they have one.
    pub fn to_document(&self) -> (r: Option<Document>)
        ensures
            match self.document() {
                Some(e) => r matches Some(d) && entries(d) == e,
                None => r is None,
            },
    {
        broadcast use group_entries;
        proof {
            reveal_strlit("writeConcern");
            reveal_strlit("collation");
            assert("writeConcern"@.len() != "collation"@.len());
        }
        let concern = optional_concern(&self.writeConcern)?;
        let mut d = new_document();
        insert(&mut d, "writeConcern", concern);
        insert(&mut d, "collation", optional_collation(&self.collation));
        Some(d)
    }
}

/// Optional delete options as a value: their document, or null. Options
/// without document have no value.
pub open spec fn options_or_null(o: Option<Options>) -> Option<Value> {
    match o {
        Some(o) => match o.document() {
            Some(e) => Some(Value::Document(e)),
            None => None,
        },
        None => Some(Value::Null),
    }
}

/// The value of optional delete options, where they have one.
pub fn optional_options(o: &Option<Options>) -> (b: Option<Bson>)
    ensures
        match options_or_null(*o) {
            Some(v) => b matches Some(found) && value(found) == v,
            None => b is None,
        },
{
    match o {
        Some(o) => match o.to_document() {
            Some(d) => Some(embedded(&d)),
            None => None,
        },
        None => Some(null()),
    }
}

/// What is needed to delete the documents that match a query. `M` is the
/// type of the metadata; a request can be serialised once it is a document.
#[allow(non_snake_case)]
#[derive(Clone, Debug)]
pub struct Request<M> {
    /// The application or client name, for the service's metric record.
    pub application: String,
    /// The database against which the operation will be executed.
    pub database: String,
    /// The collection against which the operation will be executed.
    pub collection: String,
    /// The query that selects the documents to delete. The service does not
    /// accept an empty one.
    pub document: Document,
    /// Modifiers of the delete.
    pub options: Option<Options>,
    /// Custom metadata for the version-history record.
    pub metadata: Option<M>,
    /// Identifier that ties the metric record to the caller's own tracing.
    pub correlationId: Option<String>,
    /// Whether the service is to skip the version-history record.
    pub skipVersion: bool,
    /// Whether the service is to skip the metric record.
    pub skipMetric: bool,
}

impl<M> Request<M> {
    /// A request to delete what `document` selects, with every optional
    /// field unset and both flags off.
    pub fn new(application: &str, database: &str, collection: &str, document: Document) -> (r: Request<M>)
        ensures
            r.application@ == application@,
            r.database@ == database@,
            r.collection@ == collection@,
            r.document == document,
            r.options is None,
            r.metadata is None,
            r.correlationId is None,
            !r.skipVersion,
            !r.skipMetric,
    {
        Request {
            application: application.to_owned(),
            database: database.to_owned(),
            collection: collection.to_owned(),
            document,
            options: None,
            metadata: None,
            correlationId: None,
            skipVersion: false,
            skipMetric: false,
        }
    }

}

impl Request<Document> {
    /// The envelope of the request: the query passes through unchanged
    /// under `document`. There is none where the options have no document.
    pub open spec fn envelope_of(self) -> Option<Entries> {
        match options_or_null(self.options) {
            Some(options) => Some(
                framed(
                    self.application@,
                    self.database@,
                    self.collection@,
                    Value::Document(entries(self.document)),
                    options,
                    self.metadata,
                    self.correlationId,
                    self.skipVersion,
                    self.skipMetric,
                    Action::delete,
                ),
            ),
            None => None,
        }
    }

    /// The bytes of the request's envelope, or why there are none.
    pub open spec fn wire(self) -> Result<Seq<u8>, Cause> {
        match self.envelope_of() {
            Some(e) => match encoding(e) {
                Some(bytes) => Ok(bytes),
                None => Err(Cause::Encoding),
            },
            None => Err(Cause::Encoding),
        }
    }

    /// Builds the request's envelope.
    pub fn envelope(&self) -> (r: Result<Document, Failure>)
        ensures
            match self.envelope_of() {
                Some(e) => r matches Ok(d) && entries(d) == e,
                None => r matches Err(f) && f@ == Cause::Encoding,
            },
    {
        match optional_options(&self.options) {
            Some(options) => Ok(
                frame(
                    self.application.as_str(),
                    self.database.as_str(),
                    self.collection.as_str(),
                    embedded(&self.document),
                    options,
                    &self.metadata,
                    &self.correlationId,
                    self.skipVersion,
                    self.skipMetric,
                    Action::delete,
                ),
            ),
            None => Err(Failure::Encoding("write concern out of range".to_owned())),
        }
    }

    /// Serialises the request into the bytes that go over the wire.
    pub fn serialise(&self) -> (r: Result<Vec<u8>, Failure>)
        ensures
            match r {
                Ok(bytes) => self.wire() == Ok::<Seq<u8>, Cause>(bytes@),
                Err(f) => self.wire() == Err::<Seq<u8>, Cause>(f@),
            },
    {
        let d = self.envelope()?;
        encode(&d)
    }
}

/// Assembles a [`Request`] step by step.
pub struct RequestBuilder<M> {
    request: Request<M>,
}

impl<M> RequestBuilder<M> {
    /// The request as assembled so far.
    pub closed spec fn pending(self) -> Request<M> {
        self.request
    }

    /// Starts from the request [`Request::new`] gives.
    pub fn new(application: &str, database: &str, collection: &str, document: Document) -> (b: RequestBuilder<M>)
        ensures
            b.pending().application@ == application@,
            b.pending().database@ == database@,
            b.pending().collection@ == collection@,
            b.pending().document == document,
            b.pending().options is None,
            b.pending().metadata is None,
            b.pending().correlationId is None,
            !b.pending().skipVersion,
            !b.pending().skipMetric,
    {
        RequestBuilder { request: Request::new(application, database, collection, document) }
    }

    /// Sets the options.
    pub fn with_options(self, options: Options) -> (b: RequestBuilder<M>)
        ensures
            b.pending() == (Request { options: Some(options), ..self.pending() }),
    {
        let mut request = self.request;
        request.options = Some(options);
        RequestBuilder { request }
    }

    /// Sets the metadata.
    pub fn with_metadata(self, metadata: M) -> (b: RequestBuilder<M>)
        ensures
            b.pending() == (Request { metadata: Some(metadata), ..self.pending() }),
    {
        let mut request = self.request;
        request.metadata = Some(metadata);
        RequestBuilder { request }
    }

    /// Sets the correlation identifier.
    pub fn with_correlation_id(self, correlation_id: &str) -> (b: RequestBuilder<M>)
        ensures
            b.pending().correlationId matches Some(id) && id@ == correlation_id@,
            b.pending() == (Request { correlationId: b.pending().correlationId, ..self.pending() }),
    {
        let mut request = self.request;
        request.correlationId = Some(correlation_id.to_owned());
        RequestBuilder { request }
    }

    /// Sets whether the version-history record is skipped.
    pub fn skip_version(self, skip: bool) -> (b: RequestBuilder<M>)
        ensures
            b.pending() == (Request { skipVersion: skip, ..self.pending() }),
    {
        let mut request = self.request;
        request.skipVersion = skip;
        RequestBuilder { request }
    }

    /// Sets whether the metric record is skipped.
    pub fn skip_metric(self, skip: bool) -> (b: RequestBuilder<M>)
        ensures
            b.pending() == (Request { skipMetric: skip, ..self.pending() }),
    {
        let mut request = self.request;
        request.skipMetric = skip;
        RequestBuilder { request }
    }

    /// Hands out the assembled request.
    pub fn build(self) -> (r: Request<M>)
        ensures
            r == self.pending(),
    {
        self.request
    }
}

/// What the service answers to a delete: the identifiers of the documents
/// it deleted, of those it could not delete, and the audit records it wrote.
#[derive(Clone, Debug)]
pub struct Response {
    pub success: Vec<ObjectId>,
    pub failure: Vec<ObjectId>,
    pub history: Vec<History>,
}

impl Response {
    /// Whether a document can be read as the answer to a delete: `success`
    /// and `failure` are arrays of object identifiers, `history` is an
    /// array of audit records.
    pub open spec fn readable(e: Entries) -> bool {
        &&& array_in(e, "success"@) matches Some(items) && all_identifiers(items)
        &&& array_in(e, "failure"@) matches Some(items) && all_identifiers(items)
        &&& array_in(e, "history"@) matches Some(items) && all_histories(items)
    }

    /// Whether this is the answer a document holds.
    pub open spec fn describes(self, e: Entries) -> bool {
        &&& array_in(e, "success"@) matches Some(items) && are_identifiers(self.success@, items)
        &&& array_in(e, "failure"@) matches Some(items) && are_identifiers(self.failure@, items)
        &&& array_in(e, "history"@) matches Some(items) && are_histories(self.history@, items)
    }

    /// Reads the answer to a delete from a document.
    pub fn from_document(d: &Document) -> (r: Option<Response>)
        ensures
            match r {
                Some(found) => found.describes(entries(*d)),
                None => !Response::readable(entries(*d)),
            },
    {
        let success = identifiers(array_at(d, "success")?)?;
        let failure = identifiers(array_at(d, "failure")?)?;
        let history = histories(array_at(d, "history")?)?;
        Some(Response { success, failure, history })
    }
}

/// Which answer to a delete a reply is.
pub enum Kind {
    /// The reply has the key `success`: the structured answer.
    Success,
    /// The reply has the key `error` and not `success`.
    Error,
    /// The reply has neither key.
    Unknown,
}

/// The kind of a reply: the first of `success`, `error` among its keys.
pub open spec fn kind_of(reply: Entries) -> Kind {
    if has_key(reply, "success"@) {
        Kind::Success
    } else if has_key(reply, "error"@) {
        Kind::Error
    } else {
        Kind::Unknown
    }
}

/// Whether `r` is what a reply to a delete amounts to. A reply that names
/// a kind but cannot be read as that kind, and one of unknown kind, are
/// protocol violations; a reported error is the service's failure.
pub open spec fn answers(reply: Entries, r: Result<Response, Failure>) -> bool {
    match kind_of(reply) {
        Kind::Success => if Response::readable(reply) {
            r matches Ok(found) && found.describes(reply)
        } else {
            r matches Err(f) && f@ == Cause::ProtocolViolation
        },
        Kind::Error => r matches Err(f) && f@ == reported(reply),
        Kind::Unknown => r matches Err(f) && f@ == Cause::ProtocolViolation,
    }
}

impl Response {
    /// Reads the reply to a delete.
    pub fn from_reply(reply: &Document) -> (r: Result<Response, Failure>)
        ensures
            answers(entries(*reply), r),
    {
        if get(reply, "success").is_some() {
            match Response::from_document(reply) {
                Some(found) => Ok(found),
                None => Err(Failure::ProtocolViolation),
            }
        } else if get(reply, "error").is_some() {
            Err(report(reply))
        } else {
            Err(Failure::ProtocolViolation)
        }
    }
}

} // verus!
