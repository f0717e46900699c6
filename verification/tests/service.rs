//! The client against a service that lives in memory: the same requests and
//! the same expectations as against a real one, with the transport a
//! closure.

use bson::oid::ObjectId;
use bson::{Bson, DateTime, Document};
use mongo_service::repository::model::{create as mcreate, delete as mdelete, update as mupdate};
use mongo_service::repository::{by_id, create, delete_by_id, filter, property, update, version_history_document, version_history_for};
use mongo_service::{execute, Failure, Request, Response};
use std::cell::RefCell;

const HISTORY_DATABASE: &str = "versionHistory";
const HISTORY_COLLECTION: &str = "entities";

fn doc(pairs: Vec<(&str, Bson)>) -> Document {
    let mut d = Document::new();
    for (key, value) in pairs {
        d.insert(key, value);
    }
    d
}

struct Collection {
    database: String,
    name: String,
    documents: Vec<Document>,
    indexes: Vec<String>,
}

struct Service {
    collections: RefCell<Vec<Collection>>,
}

fn at_path<'a>(d: &'a Document, path: &str) -> Option<&'a Bson> {
    match path.split_once('.') {
        Some((head, rest)) => match d.get(head) {
            Some(Bson::Document(inner)) => at_path(inner, rest),
            _ => None,
        },
        None => d.get(path),
    }
}

fn matches_filter(d: &Document, query: &Document) -> bool {
    query.iter().all(|(key, wanted)| match wanted {
        Bson::Document(operator) if operator.contains_key("$ne") => at_path(d, key) != operator.get("$ne"),
        _ => at_path(d, key) == Some(wanted),
    })
}

fn error(message: &str) -> Document {
    doc(vec![("error", Bson::from(message))])
}

impl Service {
    fn new() -> Service {
        Service { collections: RefCell::new(Vec::new()) }
    }

    fn send(&self, bytes: Vec<u8>) -> Result<Vec<u8>, String> {
        let request = Document::from_reader(bytes.as_slice()).map_err(|e| e.to_string())?;
        self.handle(&request).to_vec().map_err(|e| e.to_string())
    }

    fn position(&self, database: &str, name: &str) -> Option<usize> {
        self.collections.borrow().iter().position(|c| c.database == database && c.name == name)
    }

    fn ensure(&self, database: &str, name: &str) -> usize {
        if let Some(i) = self.position(database, name) {
            return i;
        }
        self.collections.borrow_mut().push(Collection {
            database: database.to_string(),
            name: name.to_string(),
            documents: Vec::new(),
            indexes: Vec::new(),
        });
        self.collections.borrow().len() - 1
    }

    fn select(&self, database: &str, name: &str, query: &Document) -> Vec<Document> {
        match self.position(database, name) {
            Some(i) => self.collections.borrow()[i].documents.iter().filter(|d| matches_filter(d, query)).cloned().collect(),
            None => Vec::new(),
        }
    }

    fn store(&self, database: &str, name: &str, d: Document) {
        let i = self.ensure(database, name);
        self.collections.borrow_mut()[i].documents.push(d);
    }

    fn remove(&self, database: &str, name: &str, query: &Document) -> Vec<Document> {
        let gone = self.select(database, name, query);
        if let Some(i) = self.position(database, name) {
            self.collections.borrow_mut()[i].documents.retain(|d| !matches_filter(d, query));
        }
        gone
    }

    fn record(&self, database: &str, name: &str, action: &str, entity: &Document, metadata: Option<&Document>) -> Document {
        let id = ObjectId::new();
        let mut snapshot = doc(vec![
            ("_id", Bson::ObjectId(id)),
            ("database", Bson::from(database)),
            ("collection", Bson::from(name)),
            ("action", Bson::from(action)),
            ("entity", Bson::Document(entity.clone())),
            ("created", Bson::DateTime(DateTime::from_millis(1_700_000_000_000))),
        ]);
        if let Some(m) = metadata {
            snapshot.insert("metadata", m.clone());
        }
        self.store(HISTORY_DATABASE, HISTORY_COLLECTION, snapshot);
        doc(vec![
            ("_id", Bson::ObjectId(id)),
            ("database", Bson::from(HISTORY_DATABASE)),
            ("collection", Bson::from(HISTORY_COLLECTION)),
            ("entity", entity.get("_id").cloned().unwrap_or(Bson::Null)),
        ])
    }

    fn handle(&self, request: &Document) -> Document {
        let database = request.get_str("database").unwrap_or("");
        let name = request.get_str("collection").unwrap_or("");
        let payload = request.get_document("document").cloned().unwrap_or_default();
        let options = request.get_document("options").cloned().unwrap_or_default();
        let metadata = request.get_document("metadata").ok();
        let skip = request.get_bool("skipVersion").unwrap_or(false);
        match request.get_str("action").unwrap_or("") {
            "create" => {
                let id = match payload.get_object_id("_id") {
                    Ok(id) => id,
                    Err(_) => return error("Document has no _id"),
                };
                self.store(database, name, payload.clone());
                if skip {
                    doc(vec![("_id", Bson::ObjectId(id)), ("skipVersion", Bson::Boolean(true))])
                } else {
                    self.record(database, name, "create", &payload, metadata)
                }
            }
            "createTimeseries" => {
                let mut stored = payload.clone();
                let id = match stored.get_object_id("_id") {
                    Ok(id) => id,
                    Err(_) => {
                        let id = ObjectId::new();
                        stored.insert("_id", id);
                        id
                    }
                };
                self.store(database, name, stored);
                doc(vec![("_id", Bson::ObjectId(id)), ("database", Bson::from(database)), ("collection", Bson::from(name))])
            }
            "retrieve" => {
                let mut found = self.select(database, name, &payload);
                if payload.get_object_id("_id").is_ok() {
                    return match found.into_iter().next() {
                        Some(d) => doc(vec![("result", Bson::Document(d))]),
                        None => error("Document not found"),
                    };
                }
                let descending = options.get_document("sort").ok().and_then(|s| s.get_i32("_id").ok()) == Some(-1);
                found.sort_by_key(|d| d.get_object_id("_id").ok());
                if descending {
                    found.reverse();
                }
                if let Some(limit) = options.get("limit").and_then(|l| l.as_i32()) {
                    found.truncate(limit as usize);
                }
                doc(vec![("results", Bson::Array(found.into_iter().map(Bson::Document).collect()))])
            }
            "count" => doc(vec![("count", Bson::Int64(self.select(database, name, &payload).len() as i64))]),
            "update" => {
                let replacement = match payload.get_document("replace") {
                    Ok(r) => r.clone(),
                    Err(_) => payload.clone(),
                };
                let id = match replacement.get_object_id("_id") {
                    Ok(id) => id,
                    Err(_) => return error("Document has no _id"),
                };
                let query = doc(vec![("_id", Bson::ObjectId(id))]);
                if self.remove(database, name, &query).is_empty() {
                    return error("Document not found");
                }
                self.store(database, name, replacement.clone());
                if skip {
                    doc(vec![("skipVersion", Bson::Boolean(true))])
                } else {
                    let history = self.record(database, name, "update", &replacement, metadata);
                    doc(vec![("document", Bson::Document(replacement)), ("history", Bson::Document(history))])
                }
            }
            "delete" => {
                if payload.is_empty() {
                    return error("Empty filter");
                }
                let gone = self.remove(database, name, &payload);
                let mut success = Vec::new();
                let mut history = Vec::new();
                for d in gone.iter() {
                    success.push(d.get("_id").cloned().unwrap_or(Bson::Null));
                    if !skip {
                        history.push(Bson::Document(self.record(database, name, "delete", d, metadata)));
                    }
                }
                doc(vec![
                    ("success", Bson::Array(success)),
                    ("failure", Bson::Array(Vec::new())),
                    ("history", Bson::Array(history)),
                ])
            }
            "distinct" => {
                let field = payload.get_str("field").unwrap_or("");
                let query = payload.get_document("filter").cloned().unwrap_or_default();
                let mut values: Vec<Bson> = Vec::new();
                for d in self.select(database, name, &query) {
                    if let Some(v) = d.get(field) {
                        if !values.contains(v) {
                            values.push(v.clone());
                        }
                    }
                }
                doc(vec![("results", Bson::Array(vec![Bson::Document(doc(vec![("values", Bson::Array(values))]))]))])
            }
            "createCollection" => {
                if self.position(database, name).is_some() {
                    return error("Collection exists");
                }
                self.ensure(database, name);
                doc(vec![("database", Bson::from(database)), ("collection", Bson::from(name))])
            }
            "renameCollection" => {
                let target = payload.get_str("target").unwrap_or("");
                if self.position(database, target).is_some() {
                    return error("Target collection exists");
                }
                let i = match self.position(database, name) {
                    Some(i) => i,
                    None => return error("Collection not found"),
                };
                self.collections.borrow_mut()[i].name = target.to_string();
                if let Some(h) = self.position(HISTORY_DATABASE, HISTORY_COLLECTION) {
                    for snapshot in self.collections.borrow_mut()[h].documents.iter_mut() {
                        if snapshot.get_str("database").ok() == Some(database) && snapshot.get_str("collection").ok() == Some(name) {
                            snapshot.insert("collection", target);
                        }
                    }
                }
                doc(vec![("database", Bson::from(database)), ("collection", Bson::from(target))])
            }
            "dropCollection" => {
                self.collections.borrow_mut().retain(|c| !(c.database == database && c.name == name));
                if payload.get_bool("clearVersionHistory").unwrap_or(false) {
                    let query = doc(vec![("database", Bson::from(database)), ("collection", Bson::from(name))]);
                    self.remove(HISTORY_DATABASE, HISTORY_COLLECTION, &query);
                }
                doc(vec![("dropCollection", Bson::Boolean(true))])
            }
            "index" => {
                let index = match options.get_str("name") {
                    Ok(given) => given.to_string(),
                    Err(_) => payload.keys().map(|k| format!("{}_1", k)).collect::<Vec<String>>().join("_"),
                };
                let i = self.ensure(database, name);
                if self.collections.borrow()[i].indexes.contains(&index) {
                    Document::new()
                } else {
                    self.collections.borrow_mut()[i].indexes.push(index.clone());
                    doc(vec![("name", Bson::from(index))])
                }
            }
            "dropIndex" => {
                let index = match payload.get_str("name") {
                    Ok(given) => given.to_string(),
                    Err(_) => payload
                        .get_document("specification")
                        .map(|s| s.keys().map(|k| format!("{}_1", k)).collect::<Vec<String>>().join("_"))
                        .unwrap_or_default(),
                };
                let i = self.ensure(database, name);
                self.collections.borrow_mut()[i].indexes.retain(|n| n != &index);
                doc(vec![("dropIndex", Bson::Boolean(true))])
            }
            "bulk" => {
                let mut created = 0;
                let mut removed = 0;
                let mut recorded = 0;
                if let Ok(items) = payload.get_array("insert") {
                    for item in items.iter().filter_map(|i| i.as_document()) {
                        self.store(database, name, item.clone());
                        self.record(database, name, "create", item, metadata);
                        created += 1;
                        recorded += 1;
                    }
                }
                if let Ok(items) = payload.get_array("remove") {
                    for item in items.iter().filter_map(|i| i.as_document()) {
                        for d in self.remove(database, name, item) {
                            self.record(database, name, "delete", &d, metadata);
                            removed += 1;
                            recorded += 1;
                        }
                    }
                }
                doc(vec![("create", Bson::Int32(created)), ("history", Bson::Int32(recorded)), ("remove", Bson::Int32(removed))])
            }
            _ => error("Unknown action"),
        }
    }
}

fn run(service: &Service, request: Request) -> Result<Response, Failure> {
    execute(request, |bytes: Vec<u8>| service.send(bytes))
}

fn common_id(service: &Service, database: &str, collection: &str, id: &ObjectId) {
    let request = Request::retrieve(database.to_string(), collection.to_string(), doc(vec![("_id", Bson::ObjectId(*id))]));
    let res = run(service, request);
    assert_eq!(res.is_ok(), true);
    match res.unwrap() {
        Response::result(d) => {
            assert_eq!(d.contains_key("_id"), true);
            assert_eq!(d.get_object_id("_id").unwrap(), *id);
        }
        _ => panic!("Unexpected response"),
    }
}

fn common_count(service: &Service, database: &str, collection: &str) -> i64 {
    let request = Request::count(database.to_string(), collection.to_string(), Document::new());
    let res = run(service, request);
    assert_eq!(res.is_ok(), true);
    match res.unwrap() {
        Response::result(d) => {
            assert_eq!(d.contains_key("count"), true);
            d.get_i64("count").unwrap()
        }
        _ => panic!("Unexpected response"),
    }
}

fn common_delete(service: &Service, database: &str, collection: &str, id: &ObjectId) {
    let request = Request::delete(database.to_string(), collection.to_string(), doc(vec![("_id", Bson::ObjectId(*id))]));
    let res = run(service, request);
    assert_eq!(res.is_ok(), true);
    match res.unwrap() {
        Response::result(d) => {
            assert_eq!(d.contains_key("success"), true);
            assert_eq!(d.contains_key("failure"), true);
            assert_eq!(d.contains_key("history"), true);
            let a = d.get_array("success").unwrap();
            assert_eq!(a.len(), 1);
            assert_eq!(a.get(0).unwrap().as_object_id().unwrap(), *id);
            assert_eq!(d.get_array("history").unwrap().len(), 1);
        }
        _ => panic!("Unexpected response"),
    }
}

fn common_drop(service: &Service, database: &str, collection: &str, clear_history: bool) {
    let request = Request::drop_collection(
        database.to_string(),
        collection.to_string(),
        doc(vec![("clearVersionHistory", Bson::Boolean(clear_history))]),
    );
    let res = run(service, request);
    assert_eq!(res.is_ok(), true);
    match res.unwrap() {
        Response::result(d) => assert_eq!(d.contains_key("dropCollection"), true),
        _ => panic!("Unexpected response"),
    }
}

fn create_entity(service: &Service, database: &str, collection: &str, payload: Document) -> (ObjectId, String, String) {
    let oid = payload.get_object_id("_id").unwrap();
    let request = Request::create(database.to_string(), collection.to_string(), payload);
    let res = run(service, request);
    assert_eq!(res.is_ok(), true);
    match res.unwrap() {
        Response::result(d) => {
            assert_eq!(d.contains_key("_id"), true);
            assert_eq!(d.contains_key("entity"), true);
            assert_eq!(d.contains_key("database"), true);
            assert_eq!(d.contains_key("collection"), true);
            assert_eq!(d.get_object_id("entity").unwrap(), oid);
            assert_ne!(d.get_object_id("_id").unwrap(), oid);
            (d.get_object_id("_id").unwrap(), d.get_str("database").unwrap().to_string(), d.get_str("collection").unwrap().to_string())
        }
        _ => panic!("Unexpected response"),
    }
}

#[test]
fn crud() {
    let service = Service::new();
    let database = "itest";
    let collection = "test";

    // create
    let id = ObjectId::new();
    let before = common_count(&service, database, collection);
    let (vhid, vhd, vhc) =
        create_entity(&service, database, collection, doc(vec![("_id", Bson::ObjectId(id)), ("key", Bson::from("value"))]));
    assert_eq!(vhd, HISTORY_DATABASE);
    assert_eq!(vhc, HISTORY_COLLECTION);

    let count = common_count(&service, database, collection);
    assert!(count > 0);
    assert_eq!(count, before + 1);

    common_id(&service, database, collection, &id);

    // property
    let request = Request::retrieve(database.to_string(), collection.to_string(), doc(vec![("key", Bson::from("value"))]));
    match run(&service, request).unwrap() {
        Response::results(d) => {
            assert_ne!(d.len(), 0);
            let mut found = false;
            for a in d.iter() {
                let i = a.as_document().unwrap();
                if i.get_object_id("_id").unwrap() == id {
                    found = true;
                    break;
                }
            }
            assert_eq!(found, true);
        }
        _ => panic!("Unexpected response"),
    }

    // vid
    let request = Request::retrieve(vhd.clone(), vhc.clone(), doc(vec![("_id", Bson::ObjectId(vhid))]));
    match run(&service, request).unwrap() {
        Response::result(d) => {
            assert_eq!(d.contains_key("_id"), true);
            assert_eq!(d.contains_key("entity"), true);
            assert_eq!(d.get_object_id("_id").unwrap(), vhid);
            let e = d.get_document("entity").unwrap();
            assert_eq!(e.contains_key("_id"), true);
            assert_eq!(e.get_object_id("_id").unwrap(), id);
        }
        _ => panic!("Unexpected response"),
    }

    // veid
    let request = Request::retrieve(vhd.clone(), vhc.clone(), doc(vec![("entity._id", Bson::ObjectId(id))]));
    match run(&service, request).unwrap() {
        Response::results(a) => {
            assert_eq!(a.len(), 1);
            let d = a.get(0).unwrap().as_document().unwrap();
            assert_eq!(d.contains_key("_id"), true);
            assert_eq!(d.contains_key("entity"), true);
            assert_eq!(d.get_object_id("_id").unwrap(), vhid);
            let e = d.get_document("entity").unwrap();
            assert_eq!(e.contains_key("_id"), true);
            assert_eq!(e.get_object_id("_id").unwrap(), id);
        }
        _ => panic!("Unexpected response"),
    }

    // update
    let request = Request::update(
        database.to_string(),
        collection.to_string(),
        doc(vec![("_id", Bson::ObjectId(id)), ("key", Bson::from("value updated")), ("ival", Bson::Int32(1234))]),
    );
    match run(&service, request).unwrap() {
        Response::result(d) => {
            assert_eq!(d.contains_key("document"), true);
            assert_eq!(d.contains_key("history"), true);
            let ud = d.get_document("document").unwrap();
            assert_eq!(ud.contains_key("_id"), true);
            assert_eq!(ud.get_object_id("_id").unwrap(), id);
            assert_eq!(ud.contains_key("key"), true);
            assert_eq!(ud.contains_key("ival"), true);
            let ud = d.get_document("history").unwrap();
            assert_eq!(ud.contains_key("_id"), true);
            assert_ne!(ud.get_object_id("_id").unwrap(), id);
            assert_eq!(ud.contains_key("entity"), true);
            assert_eq!(ud.get_object_id("entity").unwrap(), id);
        }
        _ => panic!("Unexpected response"),
    }

    // update without history
    let mut request = Request::update(
        database.to_string(),
        collection.to_string(),
        doc(vec![
            ("_id", Bson::ObjectId(id)),
            ("key", Bson::from("value updated")),
            ("ival", Bson::Int32(1234)),
            ("dval", Bson::Double(123.45)),
        ]),
    );
    request.skipVersion = true;
    match run(&service, request).unwrap() {
        Response::result(d) => {
            assert_eq!(d.contains_key("skipVersion"), true);
            assert_eq!(d.get_bool("skipVersion").unwrap(), true);
            assert_eq!(d.contains_key("document"), false);
            assert_eq!(d.contains_key("history"), false);
        }
        _ => panic!("Unexpected response"),
    }

    common_delete(&service, database, collection, &id);
    let after = common_count(&service, database, collection);
    assert!(count > after);
}

#[test]
fn bulk() {
    let service = Service::new();
    let database = "itest";
    let collection = "test";

    let ids = vec![ObjectId::new(), ObjectId::new()];
    let arr = Bson::Array(vec![
        Bson::Document(doc(vec![("_id", Bson::ObjectId(ids[0])), ("key", Bson::from("value1"))])),
        Bson::Document(doc(vec![("_id", Bson::ObjectId(ids[1])), ("key", Bson::from("value2"))])),
    ]);
    let request = Request::bulk(database.to_string(), collection.to_string(), doc(vec![("insert", arr)]));
    match run(&service, request).unwrap() {
        Response::result(d) => {
            assert_eq!(d.contains_key("create"), true);
            assert_eq!(d.contains_key("history"), true);
            assert_eq!(d.contains_key("remove"), true);
        }
        _ => panic!("Unexpected response"),
    }

    let count = common_count(&service, database, collection);
    assert!(count >= ids.len() as i64);

    let arr = Bson::Array(vec![
        Bson::Document(doc(vec![("_id", Bson::ObjectId(ids[0]))])),
        Bson::Document(doc(vec![("_id", Bson::ObjectId(ids[1]))])),
    ]);
    let request = Request::bulk(database.to_string(), collection.to_string(), doc(vec![("remove", arr)]));
    match run(&service, request).unwrap() {
        Response::result(d) => {
            assert_eq!(d.contains_key("create"), true);
            assert_eq!(d.contains_key("history"), true);
            assert_eq!(d.contains_key("remove"), true);
        }
        _ => panic!("Unexpected response"),
    }

    let ncount = common_count(&service, database, collection);
    assert_eq!(ncount, count - ids.len() as i64);
}

#[test]
fn collection() {
    let service = Service::new();
    let database = "itest";
    let collection = "timeseries";
    let spec = || {
        doc(vec![(
            "timeseries",
            Bson::Document(doc(vec![
                ("timeField", Bson::from("timestamp")),
                ("metaField", Bson::from("data")),
                ("granularity", Bson::from("hours")),
            ])),
        )])
    };

    // create
    let request = Request::create_collection(database.to_string(), collection.to_string(), spec());
    match run(&service, request).unwrap() {
        Response::result(d) => {
            assert_eq!(d.contains_key("database"), true);
            assert_eq!(d.contains_key("collection"), true);
        }
        _ => panic!("Unexpected response"),
    }

    // duplicate
    let request = Request::create_collection(database.to_string(), collection.to_string(), spec());
    match run(&service, request).unwrap() {
        Response::error(d) => assert_eq!(d.is_empty(), false),
        _ => panic!("Unexpected response"),
    }

    // insert with an identifier of the service's choosing
    let payload = doc(vec![
        ("timestamp", Bson::DateTime(DateTime::now())),
        ("data", Bson::Document(doc(vec![("sensor", Bson::from("123"))]))),
        ("value", Bson::Double(1.243)),
    ]);
    let request = Request::create_time_series(database.to_string(), collection.to_string(), payload);
    match run(&service, request).unwrap() {
        Response::result(d) => {
            assert_eq!(d.contains_key("_id"), true);
            assert_eq!(d.contains_key("database"), true);
            assert_eq!(d.contains_key("collection"), true);
        }
        _ => panic!("Unexpected response"),
    }

    // insert with an identifier of the caller's choosing
    let oid = ObjectId::new();
    let payload = doc(vec![
        ("_id", Bson::ObjectId(oid)),
        ("timestamp", Bson::DateTime(DateTime::now())),
        ("data", Bson::Document(doc(vec![("sensor", Bson::from("123"))]))),
        ("value", Bson::Double(1.243)),
    ]);
    let request = Request::create_time_series(database.to_string(), collection.to_string(), payload);
    match run(&service, request).unwrap() {
        Response::result(d) => {
            assert_eq!(d.contains_key("_id"), true);
            assert_eq!(d.get_object_id("_id").unwrap(), oid);
            assert_eq!(d.contains_key("database"), true);
            assert_eq!(d.contains_key("collection"), true);
        }
        _ => panic!("Unexpected response"),
    }

    common_drop(&service, database, collection, false);
}

fn distinct_create(service: &Service, database: &str, collection: &str, value: &str) -> ObjectId {
    let oid = ObjectId::new();
    create_entity(service, database, collection, doc(vec![("_id", Bson::ObjectId(oid)), ("string", Bson::from(value))]));
    oid
}

fn distinct_values(service: &Service, database: &str, collection: &str, query: Document) -> i64 {
    let request = Request::distinct(database.to_string(), collection.to_string(), query);
    match run(service, request).unwrap() {
        Response::results(a) => {
            assert_eq!(a.len(), 1);
            let d = a.get(0).unwrap().as_document().unwrap();
            assert_eq!(d.contains_key("values"), true);
            d.get_array("values").unwrap().len() as i64
        }
        _ => panic!("Unexpected response"),
    }
}

#[test]
fn distinct() {
    let service = Service::new();
    let database = "itest";
    let collection = "test";
    let by_field = || doc(vec![("field", Bson::from("string"))]);

    let id1 = distinct_create(&service, database, collection, "value1");
    assert_eq!(distinct_values(&service, database, collection, by_field()), 1);

    let id2 = distinct_create(&service, database, collection, "value2");
    assert_eq!(distinct_values(&service, database, collection, by_field()), 2);

    let id3 = distinct_create(&service, database, collection, "value2");
    assert_eq!(distinct_values(&service, database, collection, by_field()), 2);

    let id4 = distinct_create(&service, database, collection, "value");
    assert_eq!(distinct_values(&service, database, collection, by_field()), 3);

    let filtered = doc(vec![
        ("field", Bson::from("string")),
        ("filter", Bson::Document(doc(vec![("_id", Bson::Document(doc(vec![("$ne", Bson::ObjectId(id4))])))]))),
    ]);
    assert_eq!(distinct_values(&service, database, collection, filtered), 2);

    assert_eq!(distinct_values(&service, database, collection, doc(vec![("field", Bson::from("invalid"))])), 0);

    common_delete(&service, database, collection, &id1);
    common_delete(&service, database, collection, &id2);
    common_delete(&service, database, collection, &id3);
    common_delete(&service, database, collection, &id4);
}

fn index_create(service: &Service, database: &str, collection: &str, spec: &Document, options: Document, flag: bool) {
    let mut request = Request::index(database.to_string(), collection.to_string(), spec.clone());
    request.options = Some(options);
    match run(service, request).unwrap() {
        Response::result(d) => assert_eq!(d.contains_key("name"), flag),
        _ => panic!("Unexpected response"),
    }
}

fn index_drop(service: &Service, database: &str, collection: &str, payload: Document) {
    let mut request = Request::drop_index(database.to_string(), collection.to_string(), payload);
    request.options = Some(doc(vec![("version", Bson::Int32(2))]));
    match run(service, request).unwrap() {
        Response::result(d) => assert_eq!(d.contains_key("dropIndex"), true),
        _ => panic!("Unexpected response"),
    }
}

#[test]
fn index() {
    let service = Service::new();
    let database = "itest";
    let collection = "test";
    let spec = doc(vec![("unused", Bson::Int32(1))]);
    let version = || doc(vec![("version", Bson::Int32(2))]);
    let unique = || {
        doc(vec![
            ("name", Bson::from("uniqueIndex")),
            ("unique", Bson::Boolean(true)),
            ("expireAfterSeconds", Bson::Int32(5)),
        ])
    };

    index_create(&service, database, collection, &spec, version(), true);
    index_create(&service, database, collection, &spec, version(), false);
    index_drop(&service, database, collection, doc(vec![("specification", Bson::Document(spec.clone()))]));
    index_create(&service, database, collection, &spec, unique(), true);
    index_create(&service, database, collection, &spec, unique(), false);
    index_drop(&service, database, collection, doc(vec![("name", Bson::from("uniqueIndex"))]));
}

fn rename_to(service: &Service, database: &str, collection: &str, target: &str, error: bool) {
    let request =
        Request::rename_collection(database.to_string(), collection.to_string(), doc(vec![("target", Bson::from(target))]));
    match run(service, request).unwrap() {
        Response::result(d) => {
            if error {
                panic!("Unexpected response");
            }
            assert_eq!(d.contains_key("database"), true);
            assert_eq!(d.get("database").unwrap().as_str().unwrap(), database);
            assert_eq!(d.contains_key("collection"), true);
            assert_eq!(d.get("collection").unwrap().as_str().unwrap(), target);
        }
        Response::error(s) => {
            if !error {
                panic!("Unexpected response");
            }
            assert_eq!(s.is_empty(), false);
        }
        _ => panic!("Unexpected response"),
    }
}

fn rename_vid(service: &Service, database: &str, collection: &str, id: &ObjectId, db: &str, coll: &str, error: bool) {
    let request = Request::retrieve(
        database.to_string(),
        collection.to_string(),
        doc(vec![("_id", Bson::ObjectId(*id)), ("database", Bson::from(db)), ("collection", Bson::from(coll))]),
    );
    match run(service, request).unwrap() {
        Response::result(d) => {
            if error {
                panic!("Unexpected response");
            }
            assert_eq!(d.contains_key("_id"), true);
            assert_eq!(d.contains_key("entity"), true);
            assert_eq!(d.get_object_id("_id").unwrap(), *id);
            let e = d.get_document("entity").unwrap();
            assert_eq!(e.contains_key("_id"), true);
        }
        Response::error(s) => {
            if !error {
                panic!("Unexpected response");
            }
            assert_eq!(s.is_empty(), false);
        }
        _ => panic!("Unexpected response"),
    }
}

#[test]
fn rename() {
    let service = Service::new();
    let database = "itest";
    let collection = "oldname";
    let renamed = "newname";
    // the collection the first rename collides with
    create_entity(&service, database, "test", doc(vec![("_id", Bson::ObjectId(ObjectId::new()))]));

    let id = ObjectId::new();
    let (vhid, vhd, vhc) =
        create_entity(&service, database, collection, doc(vec![("_id", Bson::ObjectId(id)), ("key", Bson::from("value"))]));

    rename_to(&service, database, collection, "test", true);
    rename_to(&service, database, collection, renamed, false);
    common_id(&service, database, renamed, &id);
    rename_vid(&service, vhd.as_str(), vhc.as_str(), &vhid, database, renamed, false);
    common_drop(&service, database, renamed, true);
    rename_vid(&service, vhd.as_str(), vhc.as_str(), &vhid, database, renamed, true);
}

#[derive(Debug, Clone, PartialEq, Eq)]
struct Person {
    phones: Vec<String>,
    name: String,
    id: ObjectId,
    age: i16,
}

impl Person {
    fn to_document(&self) -> Document {
        doc(vec![
            ("phones", Bson::Array(self.phones.iter().map(|p| Bson::from(p.as_str())).collect())),
            ("name", Bson::from(self.name.as_str())),
            ("_id", Bson::ObjectId(self.id)),
            ("age", Bson::Int32(self.age as i32)),
        ])
    }

    fn from_document(d: &Document) -> Person {
        Person {
            phones: d.get_array("phones").unwrap().iter().map(|p| p.as_str().unwrap().to_string()).collect(),
            name: d.get_str("name").unwrap().to_string(),
            id: d.get_object_id("_id").unwrap(),
            age: d.get_i32("age").unwrap() as i16,
        }
    }
}

fn john() -> Person {
    Person {
        id: ObjectId::new(),
        name: "John Doe".to_string(),
        age: 43,
        phones: vec!["+44 1234567".to_string(), "+44 2345678".to_string()],
    }
}

#[test]
fn model_model() {
    let service = Service::new();
    let database = "itest";
    let collection = "test";
    let p = john();

    create_entity(&service, database, collection, p.to_document());

    let request = Request::retrieve(database.to_string(), collection.to_string(), doc(vec![("_id", Bson::ObjectId(p.id))]));
    match run(&service, request).unwrap() {
        Response::result(d) => assert_eq!(Person::from_document(&d), p),
        _ => panic!("Unexpected response"),
    }

    common_delete(&service, database, collection, &p.id);
}

#[test]
fn repository_model() {
    let service = Service::new();
    let application = "rust-test";
    let database = "itest";
    let collection = "test";

    let p = john();
    let m = doc(vec![("year", Bson::from("2024")), ("month", Bson::from("06"))]);

    let req = mcreate::RequestBuilder::<Document, Document>::new(application, database, collection, p.to_document())
        .with_metadata(m.clone())
        .build();
    let res = create(req, |bytes: Vec<u8>| service.send(bytes));
    assert_eq!(res.is_ok(), true);
    match res.unwrap() {
        mcreate::Response::WithHistory(h) => {
            assert_eq!(h.entity, p.id);
            assert_ne!(h.id, p.id);
        }
        _ => panic!("Unexpected response"),
    }

    let res = by_id(p.id, application, database, collection, |bytes: Vec<u8>| service.send(bytes));
    assert_eq!(res.is_ok(), true);
    assert_eq!(Person::from_document(&res.unwrap()), p);

    let res = property(
        "name",
        Bson::from(p.name.clone()),
        application,
        database,
        collection,
        100,
        true,
        |bytes: Vec<u8>| service.send(bytes),
    );
    assert_eq!(res.is_ok(), true);
    let res: Vec<Person> = res.unwrap().iter().map(Person::from_document).collect();
    assert!(res.len() > 0);
    for person in res.iter() {
        assert_eq!(person.name, p.name);
    }
    let mut found = false;
    for person in &res {
        if person.id == p.id {
            found = true;
        }
    }
    assert_eq!(found, true);

    let mut modified = p.clone();
    modified.name = "Jane Doe".to_string();
    let req = mupdate::RequestBuilder::<Document, Document>::new(application, database, collection, modified.to_document())
        .with_metadata(m.clone())
        .build();
    let res = update(req, |bytes: Vec<u8>| service.send(bytes));
    assert_eq!(res.is_ok(), true);
    match res.unwrap() {
        mupdate::Response::WithHistory(h) => {
            let document = Person::from_document(&h.document);
            assert_eq!(document.id, p.id);
            assert_eq!(document.name, modified.name);
            assert_ne!(h.history.id, p.id);
        }
        _ => panic!("Unexpected response"),
    }

    let res = delete_by_id(p.id, application, database, collection, |bytes: Vec<u8>| service.send(bytes));
    assert_eq!(res.is_ok(), true);
    let res = res.unwrap();
    assert_eq!(res.success.len(), 1);
    assert_eq!(res.success[0], p.id);
    assert_eq!(res.failure.len(), 0);
    assert_eq!(res.history.len(), 1);

    let vhid = res.history[0].id;
    let vhdb = res.history[0].database.as_str();
    let vhc = res.history[0].collection.as_str();
    let res = version_history_document(vhid, application, vhdb, vhc, |bytes: Vec<u8>| service.send(bytes));
    assert_eq!(res.is_ok(), true);
    let res = res.unwrap();
    let entity = Person::from_document(&res.entity);
    assert_eq!(entity.id, modified.id);
    assert_eq!(entity.name, modified.name);
    assert_eq!(entity.age, modified.age);
    assert_eq!(entity.phones, modified.phones);
    assert_eq!(res.action, "delete");
    assert_eq!(res.id, vhid);

    let res = version_history_for(p.id, application, vhdb, vhc, |bytes: Vec<u8>| service.send(bytes));
    assert_eq!(res.is_ok(), true);
    let res = res.unwrap();
    assert_eq!(res.len(), 3);
    for vhd in res.iter() {
        assert_eq!(Person::from_document(&vhd.entity).id, p.id);
    }
    assert_eq!(res[0].metadata, Some(m.clone()));
    assert_eq!(res[2].metadata, None);
}

#[test]
fn create_without_history_through_the_repository() {
    let service = Service::new();
    let p = john();
    let req = mcreate::RequestBuilder::<Document, Document>::new("rust-test", "itest", "test", p.to_document())
        .with_skip_version(true)
        .build();
    match create(req, |bytes: Vec<u8>| service.send(bytes)).unwrap() {
        mcreate::Response::NoHistory(n) => {
            assert_eq!(n.id, p.id);
            assert!(n.skipVersion);
        }
        _ => panic!("Unexpected response"),
    }
    let updated = mupdate::RequestBuilder::<Document, Document>::new("rust-test", "itest", "test", p.to_document())
        .skip_version(true)
        .build();
    match update(updated, |bytes: Vec<u8>| service.send(bytes)).unwrap() {
        mupdate::Response::NoHistory(n) => assert!(n.skipVersion),
        _ => panic!("Unexpected response"),
    }
}

#[test]
fn service_errors_surface_verbatim_through_the_repository() {
    let service = Service::new();
    let missing = by_id(ObjectId::new(), "rust-test", "itest", "test", |bytes: Vec<u8>| service.send(bytes));
    assert_eq!(missing.unwrap_err(), Failure::Service("Document not found".to_string()));

    let request = mupdate::Request::new("rust-test", "itest", "test", john().to_document());
    let absent = update(request, |bytes: Vec<u8>| service.send(bytes));
    assert_eq!(absent.unwrap_err(), Failure::Service("Document not found".to_string()));

    let request = mdelete::Request::new("rust-test", "itest", "test", Document::new());
    let empty = mongo_service::repository::delete(request, |bytes: Vec<u8>| service.send(bytes));
    assert_eq!(empty.unwrap_err(), Failure::Service("Empty filter".to_string()));

    let request = mcreate::Request::new("rust-test", "itest", "test", doc(vec![("name", Bson::from("no id"))]));
    let refused = create(request, |bytes: Vec<u8>| service.send(bytes));
    assert_eq!(refused.unwrap_err(), Failure::Service("Document has no _id".to_string()));
}

#[test]
fn update_without_identifier_never_reaches_the_transport() {
    let request = mupdate::Request::new("rust-test", "itest", "test", doc(vec![("name", Bson::from("Jane Doe"))]));
    let r = update(request, |_bytes: Vec<u8>| -> Result<Vec<u8>, String> { panic!("the transport must not be used") });
    assert_eq!(r.unwrap_err(), Failure::MissingIdentifier);
}

#[test]
fn filter_sends_limit_and_order() {
    let query = doc(vec![("age", Bson::Int32(43))]);
    for (limit, descending, wanted_limit, wanted_order) in [
        (10_u32, false, Bson::Int32(10), 1),
        (100, true, Bson::Int32(100), -1),
        (2147483647, false, Bson::Int32(2147483647), 1),
        (2147483648, true, Bson::Int64(2147483648), -1),
        (u32::MAX, false, Bson::Int64(4294967295), 1),
    ] {
        let expected_query = query.clone();
        let r = filter(query.clone(), "app", "db", "c", limit, descending, |bytes: Vec<u8>| {
            let sent = Document::from_reader(bytes.as_slice()).unwrap();
            let keys: Vec<&String> = sent.keys().collect();
            assert_eq!(keys, vec!["application", "database", "collection", "document", "options", "action"]);
            assert_eq!(sent.get_str("application").unwrap(), "app");
            assert_eq!(sent.get_str("action").unwrap(), "retrieve");
            assert_eq!(sent.get_document("document").unwrap(), &expected_query);
            let options = sent.get_document("options").unwrap();
            assert_eq!(options.get("limit").unwrap(), &wanted_limit);
            assert_eq!(options.get_document("sort").unwrap().get_i32("_id").unwrap(), wanted_order);
            Ok(doc(vec![("results", Bson::Array(Vec::new()))]).to_vec().unwrap())
        });
        assert_eq!(r.unwrap().len(), 0);
    }
}

#[test]
fn filter_wraps_a_single_result() {
    let only = doc(vec![("_id", Bson::ObjectId(ObjectId::new())), ("name", Bson::from("solo"))]);
    let reply = doc(vec![("result", Bson::Document(only.clone()))]);
    let r = filter(Document::new(), "app", "db", "c", 5, false, |_bytes: Vec<u8>| Ok(reply.to_vec().unwrap()));
    assert_eq!(r.unwrap(), vec![only]);
}

#[test]
fn queries_refuse_replies_of_the_wrong_kind() {
    let id = ObjectId::new();
    let send = |reply: Document| move |_bytes: Vec<u8>| -> Result<Vec<u8>, String> { Ok(reply.to_vec().unwrap()) };
    let not_a_document = doc(vec![("result", Bson::Int32(1))]);
    assert_eq!(by_id(id, "a", "d", "c", send(not_a_document.clone())).unwrap_err(), Failure::ProtocolViolation);
    assert_eq!(by_id(id, "a", "d", "c", send(Document::new())).unwrap_err(), Failure::ProtocolViolation);
    assert_eq!(
        by_id(id, "a", "d", "c", send(doc(vec![("results", Bson::Array(Vec::new()))]))).unwrap_err(),
        Failure::ProtocolViolation
    );
    let mixed = doc(vec![("results", Bson::Array(vec![Bson::Document(Document::new()), Bson::Int32(1)]))]);
    assert_eq!(filter(Document::new(), "a", "d", "c", 1, false, send(mixed.clone())).unwrap_err(), Failure::ProtocolViolation);
    assert_eq!(
        filter(Document::new(), "a", "d", "c", 1, false, send(doc(vec![("results", Bson::Int32(1))]))).unwrap_err(),
        Failure::ProtocolViolation
    );
    assert_eq!(version_history_document(id, "a", "d", "c", send(not_a_document)).unwrap_err(), Failure::ProtocolViolation);
    assert_eq!(
        version_history_document(id, "a", "d", "c", send(doc(vec![("result", Bson::Document(Document::new()))]))).unwrap_err(),
        Failure::ProtocolViolation
    );
    assert_eq!(version_history_for(id, "a", "d", "c", send(mixed)).unwrap_err(), Failure::ProtocolViolation);
    assert_eq!(
        version_history_for(id, "a", "d", "c", send(doc(vec![("result", Bson::Document(Document::new()))]))).unwrap_err(),
        Failure::ProtocolViolation
    );
    assert_eq!(
        version_history_for(id, "a", "d", "c", send(doc(vec![("error", Bson::from("no history"))]))).unwrap_err(),
        Failure::Service("no history".to_string())
    );
    assert_eq!(
        by_id(id, "a", "d", "c", |_bytes: Vec<u8>| Err("down".to_string())).unwrap_err(),
        Failure::Transport("down".to_string())
    );
    assert!(matches!(by_id(id, "a", "d", "c", |_bytes: Vec<u8>| Ok(vec![3, 0, 0])).unwrap_err(), Failure::Decode(_)));
}

#[test]
fn read_envelopes() {
    let id = ObjectId::from_bytes([5; 12]);
    let e = mongo_service::repository::identify(id, "app", "db", "c");
    assert_eq!(
        e,
        doc(vec![
            ("application", Bson::from("app")),
            ("database", Bson::from("db")),
            ("collection", Bson::from("c")),
            ("action", Bson::from("retrieve")),
            ("document", Bson::Document(doc(vec![("_id", Bson::ObjectId(id))]))),
        ])
    );
    let e = mongo_service::repository::chronicle(id, "app", "db", "c");
    assert_eq!(
        e,
        doc(vec![
            ("application", Bson::from("app")),
            ("database", Bson::from("db")),
            ("collection", Bson::from("c")),
            ("action", Bson::from("retrieve")),
            ("document", Bson::Document(doc(vec![("entity._id", Bson::ObjectId(id))]))),
            ("options", Bson::Document(doc(vec![("sort", Bson::Document(doc(vec![("_id", Bson::Int32(1))])))]))),
        ])
    );
    let e = mongo_service::repository::select(&doc(vec![("k", Bson::from("v"))]), "app", "db", "c", 7, true);
    assert_eq!(
        e,
        doc(vec![
            ("application", Bson::from("app")),
            ("database", Bson::from("db")),
            ("collection", Bson::from("c")),
            ("document", Bson::Document(doc(vec![("k", Bson::from("v"))]))),
            (
                "options",
                Bson::Document(doc(vec![
                    ("limit", Bson::Int32(7)),
                    ("sort", Bson::Document(doc(vec![("_id", Bson::Int32(-1))]))),
                ]))
            ),
            ("action", Bson::from("retrieve")),
        ])
    );
}
