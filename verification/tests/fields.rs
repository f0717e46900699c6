use bson::oid::ObjectId;
use bson::{Bson, DateTime, Document};
use mongo_service::client::{init, Configuration, LogLevel, Logger, Pool, Startup};
use mongo_service::field::{
    array_at, document_at, flag_at, identifier_at, instant_at, optional_amount, optional_array, optional_count,
    optional_document, optional_document_at, optional_flag, optional_text, report, text_at,
};
use mongo_service::Failure;

fn sample() -> Document {
    let mut inner = Document::new();
    inner.insert("a", 1);
    let mut d = Document::new();
    d.insert("text", "hello");
    d.insert("flag", true);
    d.insert("id", ObjectId::from_bytes([7; 12]));
    d.insert("when", DateTime::from_millis(42));
    d.insert("doc", inner);
    d.insert("list", vec![Bson::Int32(1), Bson::from("two")]);
    d.insert("nothing", Bson::Null);
    d.insert("number", 12_i64);
    d
}

#[test]
fn typed_reads_return_what_is_stored() {
    let d = sample();
    assert_eq!(text_at(&d, "text"), Some("hello".to_string()));
    assert_eq!(flag_at(&d, "flag"), Some(true));
    assert_eq!(identifier_at(&d, "id"), Some(ObjectId::from_bytes([7; 12])));
    assert_eq!(instant_at(&d, "when"), Some(DateTime::from_millis(42)));
    let mut inner = Document::new();
    inner.insert("a", 1);
    assert_eq!(document_at(&d, "doc"), Some(inner.clone()));
    assert_eq!(array_at(&d, "list"), Some(&vec![Bson::Int32(1), Bson::from("two")]));
    assert_eq!(optional_document_at(&d, "doc"), Some(Some(inner)));
    assert_eq!(optional_document_at(&d, "nothing"), Some(None));
    assert_eq!(optional_document_at(&d, "absent"), Some(None));
    assert_eq!(optional_document_at(&d, "text"), None);
}

#[test]
fn typed_reads_refuse_other_kinds_and_absent_keys() {
    let d = sample();
    for key in ["flag", "id", "when", "doc", "list", "nothing", "number", "absent"] {
        assert_eq!(text_at(&d, key), None);
    }
    for key in ["text", "id", "when", "doc", "list", "nothing", "number", "absent"] {
        assert_eq!(flag_at(&d, key), None);
    }
    for key in ["text", "flag", "when", "doc", "list", "nothing", "number", "absent"] {
        assert_eq!(identifier_at(&d, key), None);
    }
    for key in ["text", "flag", "id", "doc", "list", "nothing", "number", "absent"] {
        assert_eq!(instant_at(&d, key), None);
    }
    for key in ["text", "flag", "id", "when", "list", "nothing", "number", "absent"] {
        assert_eq!(document_at(&d, key), None);
    }
    for key in ["text", "flag", "id", "when", "doc", "nothing", "number", "absent"] {
        assert_eq!(array_at(&d, key), None);
    }
}

#[test]
fn optional_values() {
    assert_eq!(optional_text(&Some("x".to_string())), Bson::String("x".to_string()));
    assert_eq!(optional_text(&None), Bson::Null);
    assert_eq!(optional_flag(Some(false)), Bson::Boolean(false));
    assert_eq!(optional_flag(None), Bson::Null);
    assert_eq!(optional_count(Some(7)), Bson::Int64(7));
    assert_eq!(optional_count(Some(u32::MAX)), Bson::Int64(4294967295));
    assert_eq!(optional_count(None), Bson::Null);
    assert_eq!(optional_amount(Some(0)), Some(Bson::Int64(0)));
    assert_eq!(optional_amount(Some(9223372036854775807)), Some(Bson::Int64(i64::MAX)));
    assert_eq!(optional_amount(Some(9223372036854775808)), None);
    assert_eq!(optional_amount(None), Some(Bson::Null));
    let mut d = Document::new();
    d.insert("k", "v");
    assert_eq!(optional_document(&Some(d.clone())), Bson::Document(d));
    assert_eq!(optional_document(&None), Bson::Null);
    assert_eq!(optional_array(&Some(vec![Bson::Int32(1)])), Bson::Array(vec![Bson::Int32(1)]));
    assert_eq!(optional_array(&None), Bson::Null);
}

#[test]
fn reported_failure_is_the_message_verbatim() {
    let mut d = Document::new();
    d.insert("error", "Duplicate  collection: itest.timeseries ");
    assert_eq!(report(&d), Failure::Service("Duplicate  collection: itest.timeseries ".to_string()));
    let mut d = Document::new();
    d.insert("error", 17);
    assert_eq!(report(&d), Failure::ProtocolViolation);
    assert_eq!(report(&Document::new()), Failure::ProtocolViolation);
}

#[test]
fn logger_defaults() {
    let logger = Logger::new("/tmp/", "mongo-service-rust");
    assert_eq!(logger.path, "/tmp/");
    assert_eq!(logger.name, "mongo-service-rust");
    assert_eq!(logger.level, LogLevel::INFO);
    assert!(!logger.console);
}

#[test]
fn pool_defaults() {
    let pool = Pool::new();
    assert_eq!(pool.initialSize, 1);
    assert_eq!(pool.maxPoolSize, 25);
    assert_eq!(pool.maxConnections, 100);
    assert_eq!(pool.maxIdleTimeSeconds, 300);
}

#[test]
fn configuration_defaults() {
    let conf = Configuration::new("rust", "localhost", 2000);
    assert_eq!(conf.application, "rust");
    assert_eq!(conf.host, "localhost");
    assert_eq!(conf.port, 2000);
    assert_eq!(conf.pool, Pool::new());
}

#[test]
fn only_the_first_initialisation_takes_effect() {
    let mut startup = Startup::new();
    assert!(!startup.is_started());
    let first = init(&mut startup, Logger::new("/tmp/", "first"), Configuration::new("rust", "localhost", 2000));
    let (logger, conf) = first.unwrap();
    assert_eq!(logger.name, "first");
    assert_eq!(conf.port, 2000);
    assert!(startup.is_started());
    for attempt in 0..3 {
        let again = init(&mut startup, Logger::new("/var/", "later"), Configuration::new("other", "remote", 3000 + attempt));
        assert!(again.is_none());
        assert!(startup.is_started());
    }
}
