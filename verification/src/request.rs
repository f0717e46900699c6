//! The outbound intent: what to do, where, and with which payload.

use vstd::prelude::*;
use bson::{Bson, Document};
use crate::action::Action;
use crate::document::{array, embedded, entries, insert, int32, new_document, values};
use crate::value::{Entries, Value, group_entries};

verus! {

/// One operation against one collection. A request is built per call by one
/// of the constructors below; its optional fields and flags may be set
/// before it is executed.
#[allow(non_snake_case)]
#[derive(Debug)]
pub struct Request {
    /// The database against which the operation will be executed.
    pub database: String,
    /// The collection against which the operation will be executed.
    pub collection: String,
    /// The payload; what it means depends on the action.
    pub document: Document,
    /// Query or write modifiers.
    pub options: Option<Document>,
    /// Custom metadata for the version-history record of a create, update
    /// or delete.
    pub metadata: Option<Document>,
    /// Identifier that ties the metric record of this operation to the
    /// caller's own tracing.
    pub correlationId: Option<String>,
    /// The operation to perform.
    pub action: Action,
    /// Whether the service is to skip the version-history record.
    pub skipVersion: bool,
    /// Whether the service is to skip the metric record.
    pub skipMetric: bool,
}

/// The page limit a retrieval starts out with.
pub const DEFAULT_LIMIT: i32 = 250;

/// The options a retrieval starts out with: at most [`DEFAULT_LIMIT`]
/// documents, in ascending order of `_id`.
pub open spec fn retrieve_defaults() -> Entries {
    seq![
        ("limit"@, Value::Int32(DEFAULT_LIMIT)),
        ("sort"@, Value::Document(seq![("_id"@, Value::Int32(1))])),
    ]
}

/// The payload that carries an array under a single key.
pub open spec fn wrapped(key: Seq<char>, items: Seq<Bson>) -> Entries {
    seq![(key, Value::Array(values(items)))]
}

/// A document that holds `items` under `key` and nothing else.
fn wrap(key: &str, items: &Vec<Bson>) -> (d: Document)
    ensures
        entries(d) == wrapped(key@, items@),
{
    broadcast use group_entries;
    let mut d = new_document();
    insert(&mut d, key, array(items));
    d
}

impl Request {
    /// Whether this is the request for `action` on the given target and
    /// payload, with every optional field unset and both flags off.
    pub open spec fn is_plain(self, action: Action, database: String, collection: String, document: Document) -> bool {
        self == (Request {
            database,
            collection,
            document,
            options: None,
            metadata: None,
            correlationId: None,
            action,
            skipVersion: false,
            skipMetric: false,
        })
    }

    fn plain(action: Action, database: String, collection: String, document: Document) -> (r: Request)
        ensures
            r.is_plain(action, database, collection, document),
    {
        Request {
            database,
            collection,
            document,
            options: None,
            metadata: None,
            correlationId: None,
            action,
            skipVersion: false,
            skipMetric: false,
        }
    }

    /// A request to create `document`, which must carry its `_id`.
    pub fn create(database: String, collection: String, document: Document) -> (r: Request)
        ensures
            r.is_plain(Action::create, database, collection, document),
    {
        Request::plain(Action::create, database, collection, document)
    }

    /// A request to create the time-series record `document`; an `_id` is
    /// optional.
    pub fn create_time_series(database: String, collection: String, document: Document) -> (r: Request)
        ensures
            r.is_plain(Action::createTimeseries, database, collection, document),
    {
        Request::plain(Action::createTimeseries, database, collection, document)
    }

    /// A request to replace the document whose `_id` is that of `document`.
    pub fn update(database: String, collection: String, document: Document) -> (r: Request)
        ensures
            r.is_plain(Action::update, database, collection, document),
    {
        Request::plain(Action::update, database, collection, document)
    }

    /// A request to delete the documents that match `document`.
    pub fn delete(database: String, collection: String, document: Document) -> (r: Request)
        ensures
            r.is_plain(Action::delete, database, collection, document),
    {
        Request::plain(Action::delete, database, collection, document)
    }

    /// A request to count the documents that match `document`.
    pub fn count(database: String, collection: String, document: Document) -> (r: Request)
        ensures
            r.is_plain(Action::count, database, collection, document),
    {
        Request::plain(Action::count, database, collection, document)
    }

    /// A request for the distinct values of the field that `document` names.
    pub fn distinct(database: String, collection: String, document: Document) -> (r: Request)
        ensures
            r.is_plain(Action::distinct, database, collection, document),
    {
        Request::plain(Action::distinct, database, collection, document)
    }

    /// A request to create the collection, configured by `document`.
    pub fn create_collection(database: String, collection: String, document: Document) -> (r: Request)
        ensures
            r.is_plain(Action::createCollection, database, collection, document),
    {
        Request::plain(Action::createCollection, database, collection, document)
    }

    /// A request to rename the collection to the `target` that `document`
    /// names.
    pub fn rename_collection(database: String, collection: String, document: Document) -> (r: Request)
        ensures
            r.is_plain(Action::renameCollection, database, collection, document),
    {
        Request::plain(Action::renameCollection, database, collection, document)
    }

    /// A request to drop the collection; `document` may ask for its version
    /// history to be cleared as well.
    pub fn drop_collection(database: String, collection: String, document: Document) -> (r: Request)
        ensures
            r.is_plain(Action::dropCollection, database, collection, document),
    {
        Request::plain(Action::dropCollection, database, collection, document)
    }

    /// A request to ensure the index that `document` specifies.
    pub fn index(database: String, collection: String, document: Document) -> (r: Request)
        ensures
            r.is_plain(Action::index, database, collection, document),
    {
        Request::plain(Action::index, database, collection, document)
    }

    /// A request to drop the index that `document` identifies.
    pub fn drop_index(database: String, collection: String, document: Document) -> (r: Request)
        ensures
            r.is_plain(Action::dropIndex, database, collection, document),
    {
        Request::plain(Action::dropIndex, database, collection, document)
    }

    /// A request to perform the bulk writes that `document` lists.
    pub fn bulk(database: String, collection: String, document: Document) -> (r: Request)
        ensures
            r.is_plain(Action::bulk, database, collection, document),
    {
        Request::plain(Action::bulk, database, collection, document)
    }

    /// A request to retrieve the documents that match `document`. It starts
    /// out with the default options ([`retrieve_defaults`]); a caller who
    /// wants another page size or order replaces `options`.
    pub fn retrieve(database: String, collection: String, document: Document) -> (r: Request)
        ensures
            (Request { options: None, ..r }).is_plain(Action::retrieve, database, collection, document),
            r.options matches Some(options) && entries(options) == retrieve_defaults(),
    {
        broadcast use group_entries;
        proof {
            reveal_strlit("limit");
            reveal_strlit("sort");
            assert("limit"@.len() != "sort"@.len());
        }
        let mut sort = new_document();
        insert(&mut sort, "_id", int32(1));
        let mut options = new_document();
        insert(&mut options, "limit", int32(DEFAULT_LIMIT));
        insert(&mut options, "sort", embedded(&sort));
        Request {
            database,
            collection,
            document,
            options: Some(options),
            metadata: None,
            correlationId: None,
            action: Action::retrieve,
            skipVersion: false,
            skipMetric: false,
        }
    }

    /// A request to run the aggregation pipeline whose stages are
    /// `specification`. The payload holds the stages under `specification`.
    pub fn pipeline(database: String, collection: String, specification: &Vec<Bson>) -> (r: Request)
        ensures
            r.is_plain(Action::pipeline, database, collection, r.document),
            entries(r.document) == wrapped("specification"@, specification@),
    {
        Request::plain(Action::pipeline, database, collection, wrap("specification", specification))
    }

    /// A request to run the operations `items` in one transaction. The
    /// payload holds the operations under `items`.
    pub fn transaction(database: String, collection: String, items: &Vec<Bson>) -> (r: Request)
        ensures
            r.is_plain(Action::transaction, database, collection, r.document),
            entries(r.document) == wrapped("items"@, items@),
    {
        Request::plain(Action::transaction, database, collection, wrap("items", items))
    }
}

} // verus!
