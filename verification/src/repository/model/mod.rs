//! The typed requests and replies of the repository operations.

use vstd::prelude::*;
use bson::{Bson, DateTime, Document};
use bson::oid::ObjectId;
use crate::action::Action;
use crate::document::{
    as_document, as_object_id, boolean, entries, insert, millis, new_document, oid_bytes, text,
    value, values,
};
use crate::value::{Entries, Value, group_entries};
use crate::field::{
    document_at, document_in, document_or_null, identifier_at, identifier_in, instant_at,
    instant_in, optional_document, optional_document_at, optional_document_in, optional_text,
    text_at, text_in, text_or_null,
};

pub mod create;
pub mod delete;
pub mod options;
pub mod update;

verus! {

/// The audit record the service writes for a create, update or delete that
/// does not skip versioning.
#[derive(Clone, Debug)]
pub struct History {
    /// The database in which the version-history document was created.
    pub database: String,
    /// The collection in which the version-history document was created.
    pub collection: String,
    /// The `_id` of the entity the record is about.
    pub entity: ObjectId,
    /// The `_id` of the version-history document itself.
    pub id: ObjectId,
}

/// A persisted snapshot of an entity, as a version-history query returns it.
#[derive(Clone, Debug)]
pub struct VersionHistory<E> {
    /// The entity as it was.
    pub entity: E,
    /// The metadata given with the request that produced the snapshot.
    pub metadata: Option<Document>,
    /// The database of the entity.
    pub database: String,
    /// The collection of the entity.
    pub collection: String,
    /// The action that produced the snapshot.
    pub action: String,
    /// When the snapshot was taken.
    pub created: DateTime,
    /// The `_id` of the snapshot itself.
    pub id: ObjectId,
}

impl History {
    /// Whether a document can be read as an audit record: `database` and
    /// `collection` are strings, `entity` and `_id` object identifiers.
    pub open spec fn readable(e: Entries) -> bool {
        &&& text_in(e, "database"@) is Some
        &&& text_in(e, "collection"@) is Some
        &&& identifier_in(e, "entity"@) is Some
        &&& identifier_in(e, "_id"@) is Some
    }

    /// Whether this is the audit record a document holds.
    pub open spec fn describes(self, e: Entries) -> bool {
        &&& text_in(e, "database"@) == Some(self.database@)
        &&& text_in(e, "collection"@) == Some(self.collection@)
        &&& identifier_in(e, "entity"@) == Some(oid_bytes(self.entity))
        &&& identifier_in(e, "_id"@) == Some(oid_bytes(self.id))
    }

    /// Reads an audit record from a document. Keys beyond the four it needs
    /// are ignored.
    pub fn from_document(d: &Document) -> (r: Option<History>)
        ensures
            match r {
                Some(h) => h.describes(entries(*d)),
                None => !History::readable(entries(*d)),
            },
    {
        let database = text_at(d, "database")?;
        let collection = text_at(d, "collection")?;
        let entity = identifier_at(d, "entity")?;
        let id = identifier_at(d, "_id")?;
        Some(History { database, collection, entity, id })
    }
}

impl VersionHistory<Document> {
    /// Whether a document can be read as a snapshot: `entity` is a
    /// document, `metadata` a document, null or absent, `database`,
    /// `collection` and `action` are strings, `created` is a date-time and
    /// `_id` an object identifier.
    pub open spec fn readable(e: Entries) -> bool {
        &&& document_in(e, "entity"@) is Some
        &&& optional_document_in(e, "metadata"@) is Some
        &&& text_in(e, "database"@) is Some
        &&& text_in(e, "collection"@) is Some
        &&& text_in(e, "action"@) is Some
        &&& instant_in(e, "created"@) is Some
        &&& identifier_in(e, "_id"@) is Some
    }

    /// Whether this is the snapshot a document holds.
    pub open spec fn describes(self, e: Entries) -> bool {
        &&& document_in(e, "entity"@) == Some(entries(self.entity))
        &&& optional_document_in(e, "metadata"@) == Some(
            match self.metadata {
                Some(m) => Some(entries(m)),
                None => None,
            },
        )
        &&& text_in(e, "database"@) == Some(self.database@)
        &&& text_in(e, "collection"@) == Some(self.collection@)
        &&& text_in(e, "action"@) == Some(self.action@)
        &&& instant_in(e, "created"@) == Some(millis(self.created))
        &&& identifier_in(e, "_id"@) == Some(oid_bytes(self.id))
    }

    /// Reads a snapshot from a document, leaving the entity as the document
    /// it came as. Keys beyond the seven it knows are ignored.
    pub fn from_document(d: &Document) -> (r: Option<VersionHistory<Document>>)
        ensures
            match r {
                Some(h) => h.describes(entries(*d)),
                None => !VersionHistory::<Document>::readable(entries(*d)),
            },
    {
        let entity = document_at(d, "entity")?;
        let metadata = optional_document_at(d, "metadata")?;
        let database = text_at(d, "database")?;
        let collection = text_at(d, "collection")?;
        let action = text_at(d, "action")?;
        let created = instant_at(d, "created")?;
        let id = identifier_at(d, "_id")?;
        Some(VersionHistory { entity, metadata, database, collection, action, created, id })
    }
}

/// Whether every element is an embedded document.
pub open spec fn all_documents(items: Seq<Value>) -> bool {
    forall|i: int| 0 <= i < items.len() ==> #[trigger] items[i] is Document
}

/// Whether `found` are the documents that `items` embed, in order.
pub open spec fn are_documents(found: Seq<Document>, items: Seq<Value>) -> bool {
    &&& found.len() == items.len()
    &&& forall|i: int| 0 <= i < items.len() ==> #[trigger] items[i] == Value::Document(entries(found[i]))
}

/// Reads an array of embedded documents; `None` where an element is of
/// another kind.
pub fn documents(items: &Vec<Bson>) -> (r: Option<Vec<Document>>)
    ensures
        match r {
            Some(found) => are_documents(found@, values(items@)),
            None => !all_documents(values(items@)),
        },
{
    let mut found: Vec<Document> = Vec::new();
    let mut i: usize = 0;
    while i < items.len()
        invariant
            0 <= i <= items.len(),
            found.len() == i,
            forall|k: int| 0 <= k < i ==> #[trigger] values(items@)[k] == Value::Document(entries(found@[k])),
        decreases items.len() - i,
    {
        match as_document(&items[i]) {
            Some(d) => {
                found.push(d.clone());
            },
            None => {
                assert(!(values(items@)[i as int] is Document));
                return None;
            },
        }
        i = i + 1;
    }
    Some(found)
}

/// Whether every element is an object identifier.
pub open spec fn all_identifiers(items: Seq<Value>) -> bool {
    forall|i: int| 0 <= i < items.len() ==> #[trigger] items[i] is ObjectId
}

/// Whether `found` are the identifiers that `items` hold, in order.
pub open spec fn are_identifiers(found: Seq<ObjectId>, items: Seq<Value>) -> bool {
    &&& found.len() == items.len()
    &&& forall|i: int| 0 <= i < items.len() ==> #[trigger] items[i] == Value::ObjectId(oid_bytes(found[i]))
}

/// Reads an array of object identifiers; `None` where an element is of
/// another kind.
pub fn identifiers(items: &Vec<Bson>) -> (r: Option<Vec<ObjectId>>)
    ensures
        match r {
            Some(found) => are_identifiers(found@, values(items@)),
            None => !all_identifiers(values(items@)),
        },
{
    let mut found: Vec<ObjectId> = Vec::new();
    let mut i: usize = 0;
    while i < items.len()
        invariant
            0 <= i <= items.len(),
            found.len() == i,
            forall|k: int| 0 <= k < i ==> #[trigger] values(items@)[k] == Value::ObjectId(oid_bytes(found@[k])),
        decreases items.len() - i,
    {
        match as_object_id(&items[i]) {
            Some(id) => {
                found.push(id);
            },
            None => {
                assert(!(values(items@)[i as int] is ObjectId));
                return None;
            },
        }
        i = i + 1;
    }
    Some(found)
}

/// Whether every element is an embedded document that reads as an audit
/// record.
pub open spec fn all_histories(items: Seq<Value>) -> bool {
    forall|i: int| 0 <= i < items.len() ==> (#[trigger] items[i] matches Value::Document(e) && History::readable(e))
}

/// Whether `found` are the audit records that `items` hold, in order.
pub open spec fn are_histories(found: Seq<History>, items: Seq<Value>) -> bool {
    &&& found.len() == items.len()
    &&& forall|i: int| 0 <= i < items.len() ==> (#[trigger] items[i] matches Value::Document(e) && found[i].describes(e))
}

/// Reads an array of audit records; `None` where an element is not one.
pub fn histories(items: &Vec<Bson>) -> (r: Option<Vec<History>>)
    ensures
        match r {
            Some(found) => are_histories(found@, values(items@)),
            None => !all_histories(values(items@)),
        },
{
    let mut found: Vec<History> = Vec::new();
    let mut i: usize = 0;
    while i < items.len()
        invariant
            0 <= i <= items.len(),
            found.len() == i,
            forall|k: int| 0 <= k < i ==> (#[trigger] values(items@)[k] matches Value::Document(e) && found@[k].describes(e)),
        decreases items.len() - i,
    {
        let record = match as_document(&items[i]) {
            Some(d) => History::from_document(d),
            None => None,
        };
        match record {
            Some(h) => {
                found.push(h);
            },
            None => {
                assert(!(values(items@)[i as int] matches Value::Document(e) && History::readable(e)));
                return None;
            },
        }
        i = i + 1;
    }
    Some(found)
}

/// Whether every element is an embedded document that reads as a snapshot.
pub open spec fn all_snapshots(items: Seq<Value>) -> bool {
    forall|i: int| 0 <= i < items.len() ==> (#[trigger] items[i] matches Value::Document(e)
        && VersionHistory::<Document>::readable(e))
}

/// Whether `found` are the snapshots that `items` hold, in order.
pub open spec fn are_snapshots(found: Seq<VersionHistory<Document>>, items: Seq<Value>) -> bool {
    &&& found.len() == items.len()
    &&& forall|i: int| 0 <= i < items.len() ==> (#[trigger] items[i] matches Value::Document(e) && found[i].describes(e))
}

/// Reads an array of snapshots; `None` where an element is not one.
pub fn snapshots(items: &Vec<Bson>) -> (r: Option<Vec<VersionHistory<Document>>>)
    ensures
        match r {
            Some(found) => are_snapshots(found@, values(items@)),
            None => !all_snapshots(values(items@)),
        },
{
    let mut found: Vec<VersionHistory<Document>> = Vec::new();
    let mut i: usize = 0;
    while i < items.len()
        invariant
            0 <= i <= items.len(),
            found.len() == i,
            forall|k: int| 0 <= k < i ==> (#[trigger] values(items@)[k] matches Value::Document(e) && found@[k].describes(e)),
        decreases items.len() - i,
    {
        let snapshot = match as_document(&items[i]) {
            Some(d) => VersionHistory::from_document(d),
            None => None,
        };
        match snapshot {
            Some(h) => {
                found.push(h);
            },
            None => {
                assert(!(values(items@)[i as int] matches Value::Document(e) && VersionHistory::<Document>::readable(e)));
                return None;
            },
        }
        i = i + 1;
    }
    Some(found)
}

/// The keys of a typed request's envelope differ from one another.
pub(crate) proof fn lemma_request_keys()
    ensures
        "application"@ != "database"@,
        "application"@ != "collection"@,
        "application"@ != "document"@,
        "application"@ != "options"@,
        "application"@ != "metadata"@,
        "application"@ != "correlationId"@,
        "application"@ != "skipVersion"@,
        "application"@ != "skipMetric"@,
        "application"@ != "action"@,
        "database"@ != "collection"@,
        "database"@ != "document"@,
        "database"@ != "options"@,
        "database"@ != "metadata"@,
        "database"@ != "correlationId"@,
        "database"@ != "skipVersion"@,
        "database"@ != "skipMetric"@,
        "database"@ != "action"@,
        "collection"@ != "document"@,
        "collection"@ != "options"@,
        "collection"@ != "metadata"@,
        "collection"@ != "correlationId"@,
        "collection"@ != "skipVersion"@,
        "collection"@ != "skipMetric"@,
        "collection"@ != "action"@,
        "document"@ != "options"@,
        "document"@ != "metadata"@,
        "document"@ != "correlationId"@,
        "document"@ != "skipVersion"@,
        "document"@ != "skipMetric"@,
        "document"@ != "action"@,
        "options"@ != "metadata"@,
        "options"@ != "correlationId"@,
        "options"@ != "skipVersion"@,
        "options"@ != "skipMetric"@,
        "options"@ != "action"@,
        "metadata"@ != "correlationId"@,
        "metadata"@ != "skipVersion"@,
        "metadata"@ != "skipMetric"@,
        "metadata"@ != "action"@,
        "correlationId"@ != "skipVersion"@,
        "correlationId"@ != "skipMetric"@,
        "correlationId"@ != "action"@,
        "skipVersion"@ != "skipMetric"@,
        "skipVersion"@ != "action"@,
        "skipMetric"@ != "action"@,
{
    reveal_strlit("application");
    reveal_strlit("database");
    reveal_strlit("collection");
    reveal_strlit("document");
    reveal_strlit("options");
    reveal_strlit("metadata");
    reveal_strlit("correlationId");
    reveal_strlit("skipVersion");
    reveal_strlit("skipMetric");
    reveal_strlit("action");
    assert("application"@.len() == 11);
    assert("database"@.len() == 8);
    assert("collection"@.len() == 10);
    assert("document"@.len() == 8);
    assert("options"@.len() == 7);
    assert("metadata"@.len() == 8);
    assert("correlationId"@.len() == 13);
    assert("skipVersion"@.len() == 11);
    assert("skipMetric"@.len() == 10);
    assert("action"@.len() == 6);
    assert("application"@[0] != "skipVersion"@[0]);
    assert("database"@[1] != "document"@[1]);
    assert("database"@[0] != "metadata"@[0]);
    assert("collection"@[0] != "skipMetric"@[0]);
    assert("document"@[0] != "metadata"@[0]);
}

/// The envelope of a typed request: the fields in their fixed order, an
/// unset optional field as null, and the action's tag last.
pub open spec fn framed(
    application: Seq<char>,
    database: Seq<char>,
    collection: Seq<char>,
    payload: Value,
    options: Value,
    metadata: Option<Document>,
    correlation: Option<String>,
    skip_version: bool,
    skip_metric: bool,
    action: Action,
) -> Entries {
    seq![
        ("application"@, Value::Text(application)),
        ("database"@, Value::Text(database)),
        ("collection"@, Value::Text(collection)),
        ("document"@, payload),
        ("options"@, options),
        ("metadata"@, document_or_null(metadata)),
        ("correlationId"@, text_or_null(correlation)),
        ("skipVersion"@, Value::Boolean(skip_version)),
        ("skipMetric"@, Value::Boolean(skip_metric)),
        ("action"@, Value::Text(action.tag())),
    ]
}

/// The envelope of a typed request whose payload goes last, after the
/// action's tag.
pub open spec fn framed_payload_last(
    application: Seq<char>,
    database: Seq<char>,
    collection: Seq<char>,
    payload: Value,
    options: Value,
    metadata: Option<Document>,
    correlation: Option<String>,
    skip_version: bool,
    skip_metric: bool,
    action: Action,
) -> Entries {
    seq![
        ("application"@, Value::Text(application)),
        ("database"@, Value::Text(database)),
        ("collection"@, Value::Text(collection)),
        ("options"@, options),
        ("metadata"@, document_or_null(metadata)),
        ("correlationId"@, text_or_null(correlation)),
        ("skipVersion"@, Value::Boolean(skip_version)),
        ("skipMetric"@, Value::Boolean(skip_metric)),
        ("action"@, Value::Text(action.tag())),
        ("document"@, payload),
    ]
}

/// Builds the envelope of a typed request.
pub(crate) fn frame(
    application: &str,
    database: &str,
    collection: &str,
    payload: Bson,
    options: Bson,
    metadata: &Option<Document>,
    correlation: &Option<String>,
    skip_version: bool,
    skip_metric: bool,
    action: Action,
) -> (d: Document)
    ensures
        entries(d) == framed(
            application@,
            database@,
            collection@,
            value(payload),
            value(options),
            *metadata,
            *correlation,
            skip_version,
            skip_metric,
            action,
        ),
{
    broadcast use group_entries;
    proof {
        lemma_request_keys();
    }
    let mut d = new_document();
    insert(&mut d, "application", text(application));
    insert(&mut d, "database", text(database));
    insert(&mut d, "collection", text(collection));
    insert(&mut d, "document", payload);
    insert(&mut d, "options", options);
    insert(&mut d, "metadata", optional_document(metadata));
    insert(&mut d, "correlationId", optional_text(correlation));
    insert(&mut d, "skipVersion", boolean(skip_version));
    insert(&mut d, "skipMetric", boolean(skip_metric));
    insert(&mut d, "action", text(action.name()));
    d
}

/// Builds the envelope of a typed request whose payload goes last.
pub(crate) fn frame_payload_last(
    application: &str,
    database: &str,
    collection: &str,
    payload: Bson,
    options: Bson,
    metadata: &Option<Document>,
    correlation: &Option<String>,
    skip_version: bool,
    skip_metric: bool,
    action: Action,
) -> (d: Document)
    ensures
        entries(d) == framed_payload_last(
            application@,
            database@,
            collection@,
            value(payload),
            value(options),
            *metadata,
            *correlation,
            skip_version,
            skip_metric,
            action,
        ),
{
    broadcast use group_entries;
    proof {
        lemma_request_keys();
    }
    let mut d = new_document();
    insert(&mut d, "application", text(application));
    insert(&mut d, "database", text(database));
    insert(&mut d, "collection", text(collection));
    insert(&mut d, "options", options);
    insert(&mut d, "metadata", optional_document(metadata));
    insert(&mut d, "correlationId", optional_text(correlation));
    insert(&mut d, "skipVersion", boolean(skip_version));
    insert(&mut d, "skipMetric", boolean(skip_metric));
    insert(&mut d, "action", text(action.name()));
    insert(&mut d, "document", payload);
    d
}

} // verus!
