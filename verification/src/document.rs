//! Documents and values as the protocol sees them.
//!
//! Requests and replies are BSON documents, held as `bson::Document` values.
//! This module gives those values a mathematical reading ([`entries`],
//! [`value`]) and says, for each operation of the `bson` crate that the
//! protocol relies on, what the operation does in terms of that reading.
//! Those statements are taken on trust: they are the assumptions every proof
//! in the crate rests on, one per operation.

use vstd::prelude::*;
use bson::{Bson, DateTime, Document};
use bson::oid::ObjectId;
use crate::value::{Value, lookup, put};

verus! {

/// `bson::Document`: an insertion-ordered map from string keys to values.
#[verifier::external_type_specification]
#[verifier::external_body]
pub struct ExDocument(bson::Document);

/// `bson::Bson`: one BSON value of any kind.
#[verifier::external_type_specification]
#[verifier::external_body]
pub struct ExBson(bson::Bson);

/// `bson::oid::ObjectId`: a twelve-byte identifier.
#[verifier::external_type_specification]
#[verifier::external_body]
pub struct ExObjectId(bson::oid::ObjectId);

/// `bson::DateTime`: a UTC instant with millisecond precision.
#[verifier::external_type_specification]
#[verifier::external_body]
pub struct ExDateTime(bson::DateTime);

/// `bson::error::Error`: why an encoding or a decoding failed.
#[verifier::external_type_specification]
#[verifier::external_body]
pub struct ExError(bson::error::Error);

/// The key/value pairs a document holds, in iteration order.
pub uninterp spec fn entries(d: Document) -> Seq<(Seq<char>, Value)>;

/// The mathematical value a `Bson` stands for.
pub uninterp spec fn value(b: Bson) -> Value;

/// The twelve bytes of an identifier, as `ObjectId::bytes` returns them.
pub uninterp spec fn oid_bytes(id: ObjectId) -> Seq<u8>;

/// The instant in milliseconds since the Unix epoch, as
/// `DateTime::timestamp_millis` returns it.
pub uninterp spec fn millis(t: DateTime) -> i64;

/// The bytes `Document::to_vec` produces for a document with these entries,
/// or `None` where it reports an error.
pub uninterp spec fn encoding(e: Seq<(Seq<char>, Value)>) -> Option<Seq<u8>>;

/// The entries of the document `Document::from_reader` reads from these
/// bytes, or `None` where it reports an error.
pub uninterp spec fn decoding(bytes: Seq<u8>) -> Option<Seq<(Seq<char>, Value)>>;

/// The mathematical values of a run of `Bson` values.
pub open spec fn values(items: Seq<Bson>) -> Seq<Value> {
    items.map_values(|b: Bson| value(b))
}

/// `Document::new`: a document without entries.
#[verifier::external_body]
pub(crate) fn new_document() -> (d: Document)
    ensures
        entries(d) == Seq::<(Seq<char>, Value)>::empty(),
{
    Document::new()
}

/// `Document::insert`: stores the value under the key. The underlying map
/// replaces the value of an existing key in place and appends a new key.
#[verifier::external_body]
pub(crate) fn insert(d: &mut Document, key: &str, b: Bson)
    ensures
        entries(*final(d)) == put(entries(*old(d)), key@, value(b)),
{
    d.insert(key, b);
}

/// `Document::get`: the value stored under the key, if there is one.
#[verifier::external_body]
pub(crate) fn get<'a>(d: &'a Document, key: &str) -> (r: Option<&'a Bson>)
    ensures
        match r {
            Some(b) => lookup(entries(*d), key@) == Some(value(*b)),
            None => lookup(entries(*d), key@) is None,
        },
{
    d.get(key)
}

/// `Document::clone`: a document with the same entries.
pub assume_specification[ <bson::Document as Clone>::clone ](d: &bson::Document) -> (r: bson::Document)
    ensures
        entries(r) == entries(*d),
;

/// `ObjectId::clone`: the same identifier.
pub assume_specification[ <bson::oid::ObjectId as Clone>::clone ](id: &bson::oid::ObjectId) -> (r:
    bson::oid::ObjectId)
    ensures
        r == *id,
;

/// `DateTime::clone`: the same instant.
pub assume_specification[ <bson::DateTime as Clone>::clone ](t: &bson::DateTime) -> (r: bson::DateTime)
    ensures
        r == *t,
;

/// `Vec::<Bson>::clone`: an array with the same elements.
#[verifier::external_body]
pub(crate) fn clone_array(items: &Vec<Bson>) -> (r: Vec<Bson>)
    ensures
        values(r@) == values(items@),
{
    items.clone()
}

/// `Document::to_vec`: the document's BSON encoding. Whether it succeeds
/// and what it yields depend on the entries alone.
#[verifier::external_body]
pub(crate) fn to_vec(d: &Document) -> (r: Result<Vec<u8>, bson::error::Error>)
    ensures
        match r {
            Ok(bytes) => encoding(entries(*d)) == Some(bytes@),
            Err(_) => encoding(entries(*d)) is None,
        },
{
    d.to_vec()
}

/// `Document::from_reader` on a byte slice: the document the bytes encode.
/// Whether it succeeds and what it yields depend on the bytes alone.
#[verifier::external_body]
pub(crate) fn from_reader(bytes: &[u8]) -> (r: Result<Document, bson::error::Error>)
    ensures
        match r {
            Ok(d) => decoding(bytes@) == Some(entries(d)),
            Err(_) => decoding(bytes@) is None,
        },
{
    Document::from_reader(bytes)
}

/// `Error::to_string`: the error's text. Nothing is claimed of it.
#[verifier::external_body]
pub(crate) fn describe(e: &bson::error::Error) -> (text: String) {
    e.to_string()
}

/// `Bson::from(&str)`: a string value.
#[verifier::external_body]
pub(crate) fn text(s: &str) -> (b: Bson)
    ensures
        value(b) == Value::Text(s@),
{
    Bson::from(s)
}

/// `Bson::from(bool)`: a boolean value.
#[verifier::external_body]
pub(crate) fn boolean(flag: bool) -> (b: Bson)
    ensures
        value(b) == Value::Boolean(flag),
{
    Bson::from(flag)
}

/// `Bson::from(i32)`: a 32-bit integer value.
#[verifier::external_body]
pub(crate) fn int32(n: i32) -> (b: Bson)
    ensures
        value(b) == Value::Int32(n),
{
    Bson::from(n)
}

/// `Bson::from(i64)`: a 64-bit integer value.
#[verifier::external_body]
pub(crate) fn int64(n: i64) -> (b: Bson)
    ensures
        value(b) == Value::Int64(n),
{
    Bson::from(n)
}

/// `Bson::from(u32)`: a 32-bit integer value where the number fits one,
/// a 64-bit integer value otherwise.
#[verifier::external_body]
pub(crate) fn unsigned(n: u32) -> (b: Bson)
    ensures
        n <= i32::MAX ==> value(b) == Value::Int32(n as i32),
        n > i32::MAX ==> value(b) == Value::Int64(n as i64),
{
    Bson::from(n)
}

/// `Bson::Null`: the null value.
#[verifier::external_body]
pub(crate) fn null() -> (b: Bson)
    ensures
        value(b) == Value::Null,
{
    Bson::Null
}

/// `Bson::from(ObjectId)`: an identifier value.
#[verifier::external_body]
pub(crate) fn object_id(id: ObjectId) -> (b: Bson)
    ensures
        value(b) == Value::ObjectId(oid_bytes(id)),
{
    Bson::from(id)
}

/// `Bson::from(&Document)`: an embedded document with the same entries.
#[verifier::external_body]
pub(crate) fn embedded(d: &Document) -> (b: Bson)
    ensures
        value(b) == Value::Document(entries(*d)),
{
    Bson::from(d)
}

/// `Bson::from(&Vec<Bson>)`: an array with the same elements.
#[verifier::external_body]
pub(crate) fn array(items: &Vec<Bson>) -> (b: Bson)
    ensures
        value(b) == Value::Array(values(items@)),
{
    Bson::from(items)
}

/// `Bson::as_str`: the text of a string value, `None` for any other kind.
#[verifier::external_body]
pub(crate) fn as_str<'a>(b: &'a Bson) -> (r: Option<&'a str>)
    ensures
        match value(*b) {
            Value::Text(s) => r matches Some(t) && t@ == s,
            _ => r is None,
        },
{
    b.as_str()
}

/// `Bson::as_bool`: the flag of a boolean value, `None` for any other kind.
#[verifier::external_body]
pub(crate) fn as_bool(b: &Bson) -> (r: Option<bool>)
    ensures
        match value(*b) {
            Value::Boolean(flag) => r == Some(flag),
            _ => r is None,
        },
{
    b.as_bool()
}

/// `Bson::as_null`: `Some(())` for the null value, `None` for any other kind.
#[verifier::external_body]
pub(crate) fn as_null(b: &Bson) -> (r: Option<()>)
    ensures
        r is Some <==> value(*b) is Null,
{
    b.as_null()
}

/// `Bson::as_object_id`: the identifier of an identifier value, `None` for
/// any other kind.
#[verifier::external_body]
pub(crate) fn as_object_id(b: &Bson) -> (r: Option<ObjectId>)
    ensures
        match value(*b) {
            Value::ObjectId(bytes) => r matches Some(id) && oid_bytes(id) == bytes,
            _ => r is None,
        },
{
    b.as_object_id()
}

/// `Bson::as_datetime`: the instant of a date-time value, `None` for any
/// other kind.
#[verifier::external_body]
pub(crate) fn as_datetime(b: &Bson) -> (r: Option<DateTime>)
    ensures
        match value(*b) {
            Value::DateTime(ms) => r matches Some(t) && millis(t) == ms,
            _ => r is None,
        },
{
    b.as_datetime().copied()
}

/// `Bson::as_document`: the document of an embedded-document value, `None`
/// for any other kind.
#[verifier::external_body]
pub(crate) fn as_document<'a>(b: &'a Bson) -> (r: Option<&'a Document>)
    ensures
        match value(*b) {
            Value::Document(e) => r matches Some(d) && entries(*d) == e,
            _ => r is None,
        },
{
    b.as_document()
}

/// `Bson::as_array`: the elements of an array value, `None` for any other
/// kind.
#[verifier::external_body]
pub(crate) fn as_array<'a>(b: &'a Bson) -> (r: Option<&'a Vec<Bson>>)
    ensures
        match value(*b) {
            Value::Array(items) => r matches Some(a) && values(a@) == items,
            _ => r is None,
        },
{
    b.as_array()
}

} // verus!
