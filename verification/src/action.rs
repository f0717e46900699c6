//! The closed set of operations the service understands.

use vstd::prelude::*;

verus! {

/// An operation kind. The service tells operations apart by the tag alone,
/// which is carried as a string in every envelope.
#[allow(non_camel_case_types)]
#[derive(Clone, Copy, Debug, PartialEq, Eq, Structural)]
pub enum Action {
    /// Create a new document in the collection.
    create,
    /// Create a new time-series record.
    createTimeseries,
    /// Retrieve a document or documents from the collection.
    retrieve,
    /// Update an existing document in the collection.
    update,
    /// Delete a document or documents from the collection.
    delete,
    /// Count the documents matching a query.
    count,
    /// Retrieve the distinct values of a field.
    distinct,
    /// Create a new collection in the database.
    createCollection,
    /// Rename an existing collection.
    renameCollection,
    /// Drop a collection.
    dropCollection,
    /// Ensure an index on a collection.
    index,
    /// Drop an index from a collection.
    dropIndex,
    /// Perform bulk write operations on the collection.
    bulk,
    /// Execute an aggregation pipeline on the collection.
    pipeline,
    /// Perform a transaction involving multiple operations.
    transaction,
}

impl Action {
    /// The canonical string form of the tag.
    pub open spec fn tag(self) -> Seq<char> {
        match self {
            Action::create => "create"@,
            Action::createTimeseries => "createTimeseries"@,
            Action::retrieve => "retrieve"@,
            Action::update => "update"@,
            Action::delete => "delete"@,
            Action::count => "count"@,
            Action::distinct => "distinct"@,
            Action::createCollection => "createCollection"@,
            Action::renameCollection => "renameCollection"@,
            Action::dropCollection => "dropCollection"@,
            Action::index => "index"@,
            Action::dropIndex => "dropIndex"@,
            Action::bulk => "bulk"@,
            Action::pipeline => "pipeline"@,
            Action::transaction => "transaction"@,
        }
    }

    /// The tag as it is written into an envelope.
    pub fn name(&self) -> (name: &'static str)
        ensures
            name@ == self.tag(),
    {
        match self {
            Action::create => "create",
            Action::createTimeseries => "createTimeseries",
            Action::retrieve => "retrieve",
            Action::update => "update",
            Action::delete => "delete",
            Action::count => "count",
            Action::distinct => "distinct",
            Action::createCollection => "createCollection",
            Action::renameCollection => "renameCollection",
            Action::dropCollection => "dropCollection",
            Action::index => "index",
            Action::dropIndex => "dropIndex",
            Action::bulk => "bulk",
            Action::pipeline => "pipeline",
            Action::transaction => "transaction",
        }
    }
}

} // verus!
