use bson::oid::ObjectId;
use bson::{Bson, Document};
use mongo_service::protocol::{conclude, deliver, encode, exchange};
use mongo_service::response::{discriminate, shape, Shape};
use mongo_service::{execute, Failure, Request, Response};

fn doc(pairs: Vec<(&str, Bson)>) -> Document {
    let mut d = Document::new();
    for (key, value) in pairs {
        d.insert(key, value);
    }
    d
}

fn oid(last: u8) -> ObjectId {
    ObjectId::from_bytes([0, 0, 0, 0, 0, 0, 0, 0, 0, 0, 0, last])
}

#[test]
fn result_key_gives_the_single_document() {
    let inner = doc(vec![("_id", Bson::ObjectId(oid(1))), ("key", Bson::from("value"))]);
    let reply = doc(vec![("result", Bson::Document(inner.clone()))]);
    assert_eq!(shape(&reply), Shape::Result);
    match discriminate(reply).unwrap() {
        Response::result(d) => assert_eq!(d, inner),
        _ => panic!("Unexpected response"),
    }
}

#[test]
fn results_key_gives_the_array() {
    let items = vec![Bson::Document(doc(vec![("a", Bson::Int32(1))])), Bson::Document(doc(vec![("a", Bson::Int32(2))]))];
    let reply = doc(vec![("results", Bson::Array(items.clone()))]);
    assert_eq!(shape(&reply), Shape::Results);
    match discriminate(reply).unwrap() {
        Response::results(a) => assert_eq!(a, items),
        _ => panic!("Unexpected response"),
    }
}

#[test]
fn error_key_gives_the_message() {
    let reply = doc(vec![("error", Bson::from("duplicate collection"))]);
    assert_eq!(shape(&reply), Shape::Error);
    match discriminate(reply).unwrap() {
        Response::error(s) => assert_eq!(s, "duplicate collection"),
        Response::result(_) => panic!("an error reply must never be a result"),
        _ => panic!("Unexpected response"),
    }
}

#[test]
fn reply_without_discriminator_is_the_result() {
    let reply = doc(vec![
        ("_id", Bson::ObjectId(oid(2))),
        ("entity", Bson::ObjectId(oid(3))),
        ("database", Bson::from("versionHistory")),
        ("collection", Bson::from("entities")),
    ]);
    assert_eq!(shape(&reply), Shape::Bare);
    match discriminate(reply.clone()).unwrap() {
        Response::result(d) => assert_eq!(d, reply),
        _ => panic!("Unexpected response"),
    }
}

#[test]
fn empty_reply_is_an_empty_result() {
    assert_eq!(shape(&Document::new()), Shape::Bare);
    match discriminate(Document::new()).unwrap() {
        Response::result(d) => assert!(d.is_empty()),
        _ => panic!("Unexpected response"),
    }
}

#[test]
fn earlier_discriminator_wins() {
    let inner = doc(vec![("x", Bson::Int32(1))]);
    let items = vec![Bson::Int32(5)];
    let all = doc(vec![
        ("error", Bson::from("late")),
        ("results", Bson::Array(items.clone())),
        ("result", Bson::Document(inner.clone())),
    ]);
    assert_eq!(shape(&all), Shape::Result);
    assert!(matches!(discriminate(all).unwrap(), Response::result(d) if d == inner));

    let two = doc(vec![("error", Bson::from("late")), ("results", Bson::Array(items.clone()))]);
    assert_eq!(shape(&two), Shape::Results);
    assert!(matches!(discriminate(two).unwrap(), Response::results(a) if a == items));

    let with_noise = doc(vec![("other", Bson::Int32(1)), ("error", Bson::from("only"))]);
    assert_eq!(shape(&with_noise), Shape::Error);
    assert!(matches!(discriminate(with_noise).unwrap(), Response::error(s) if s == "only"));
}

#[test]
fn discriminator_of_the_wrong_kind_is_a_protocol_violation() {
    let replies = vec![
        doc(vec![("result", Bson::Int32(5))]),
        doc(vec![("result", Bson::Array(vec![]))]),
        doc(vec![("results", Bson::Document(Document::new()))]),
        doc(vec![("results", Bson::from("many"))]),
        doc(vec![("error", Bson::Int32(404))]),
        doc(vec![("error", Bson::Null)]),
        doc(vec![("result", Bson::Null), ("error", Bson::from("shadowed"))]),
    ];
    for reply in replies {
        assert_eq!(discriminate(reply).unwrap_err(), Failure::ProtocolViolation);
    }
}

#[test]
fn longer_keys_are_no_discriminators() {
    let reply = doc(vec![("resultset", Bson::Int32(1)), ("errors", Bson::Int32(2)), ("Result", Bson::Int32(3))]);
    assert_eq!(shape(&reply), Shape::Bare);
    assert!(matches!(discriminate(reply.clone()).unwrap(), Response::result(d) if d == reply));
}

#[test]
fn transport_failure_is_passed_on_unchanged() {
    let r = deliver(Err("connection refused".to_string()));
    assert_eq!(r.unwrap_err(), Failure::Transport("connection refused".to_string()));
    let request = Request::count("db".to_string(), "c".to_string(), Document::new());
    let r = execute(request, |_bytes: Vec<u8>| Err("no route".to_string()));
    assert_eq!(r.unwrap_err(), Failure::Transport("no route".to_string()));
}

#[test]
fn undecodable_reply_is_a_decode_failure() {
    assert!(matches!(deliver(Ok(vec![1, 2, 3])).unwrap_err(), Failure::Decode(_)));
    let request = Request::count("db".to_string(), "c".to_string(), Document::new());
    let r = execute(request, |_bytes: Vec<u8>| Ok(vec![0xff; 7]));
    assert!(matches!(r.unwrap_err(), Failure::Decode(_)));
}

#[test]
fn deliver_decodes_the_reply() {
    let reply = doc(vec![("count", Bson::Int64(3))]);
    assert_eq!(deliver(Ok(reply.to_vec().unwrap())).unwrap(), reply);
}

#[test]
fn conclude_classifies_or_passes_on() {
    let inner = doc(vec![("n", Bson::Int32(1))]);
    let reply = doc(vec![("result", Bson::Document(inner.clone()))]);
    assert!(matches!(conclude(Ok(reply)).unwrap(), Response::result(d) if d == inner));
    assert_eq!(conclude(Err(Failure::Decode("x".to_string()))).unwrap_err(), Failure::Decode("x".to_string()));
}

#[test]
fn exchange_sends_the_encoded_envelope() {
    let envelope = doc(vec![("database", Bson::from("db")), ("n", Bson::Int32(7))]);
    let expected = envelope.to_vec().unwrap();
    let reply = doc(vec![("ok", Bson::Boolean(true))]);
    let answer = reply.to_vec().unwrap();
    let got = exchange(&envelope, |bytes: Vec<u8>| {
        assert_eq!(bytes, expected);
        Ok(answer)
    });
    assert_eq!(got.unwrap(), reply);
}

#[test]
fn exchange_does_not_send_what_it_cannot_encode() {
    let envelope = doc(vec![("bad\0key", Bson::Int32(1))]);
    assert!(encode(&envelope).is_err());
    let got = exchange(&envelope, |_bytes: Vec<u8>| -> Result<Vec<u8>, String> { panic!("the transport must not be used") });
    assert!(matches!(got.unwrap_err(), Failure::Encoding(_)));
}

#[test]
fn execute_sends_the_envelope_and_classifies_the_reply() {
    let payload = doc(vec![("_id", Bson::ObjectId(oid(7))), ("key", Bson::from("value"))]);
    let mut request = Request::create("itest".to_string(), "test".to_string(), payload.clone());
    request.correlationId = Some("trace".to_string());
    let r = execute(request, |bytes: Vec<u8>| {
        let sent = Document::from_reader(bytes.as_slice()).unwrap();
        assert_eq!(sent.get_str("action").unwrap(), "create");
        assert_eq!(sent.get_str("database").unwrap(), "itest");
        assert_eq!(sent.get_str("collection").unwrap(), "test");
        assert_eq!(sent.get_str("correlationId").unwrap(), "trace");
        assert_eq!(sent.get_document("document").unwrap(), &payload);
        let mut reply = Document::new();
        reply.insert("error", "duplicate key");
        Ok(reply.to_vec().unwrap())
    });
    assert!(matches!(r.unwrap(), Response::error(s) if s == "duplicate key"));
}

#[test]
fn duplicate_collection_reply_is_an_error_response() {
    let spec = doc(vec![("timeField", Bson::from("timestamp"))]);
    let request = Request::create_collection(
        "itest".to_string(),
        "timeseries".to_string(),
        doc(vec![("timeseries", Bson::Document(spec))]),
    );
    let r = execute(request, |_bytes: Vec<u8>| Ok(doc(vec![("error", Bson::from("duplicate collection"))]).to_vec().unwrap()));
    match r.unwrap() {
        Response::error(s) => assert_eq!(s, "duplicate collection"),
        _ => panic!("Unexpected response"),
    }
}
