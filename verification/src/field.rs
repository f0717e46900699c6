//! Reading and writing the fields of a document by kind.

use vstd::prelude::*;
use bson::{Bson, DateTime, Document};
use bson::oid::ObjectId;
use crate::document::{
    array, as_array, as_bool, as_datetime, as_document, as_null, as_object_id, as_str, boolean,
    embedded, entries, get, int64, millis, null, oid_bytes, text, value, values,
};
use crate::value::{Entries, Value, lookup};
use crate::error::{Cause, Failure};

verus! {

/// The string stored under `key`, if the value there is one.
pub open spec fn text_in(e: Entries, key: Seq<char>) -> Option<Seq<char>> {
    match lookup(e, key) {
        Some(Value::Text(s)) => Some(s),
        _ => None,
    }
}

/// The flag stored under `key`, if the value there is a boolean.
pub open spec fn flag_in(e: Entries, key: Seq<char>) -> Option<bool> {
    match lookup(e, key) {
        Some(Value::Boolean(flag)) => Some(flag),
        _ => None,
    }
}

/// The bytes of the identifier stored under `key`, if the value there is an
/// object identifier.
pub open spec fn identifier_in(e: Entries, key: Seq<char>) -> Option<Seq<u8>> {
    match lookup(e, key) {
        Some(Value::ObjectId(bytes)) => Some(bytes),
        _ => None,
    }
}

/// The instant stored under `key`, if the value there is a date-time.
pub open spec fn instant_in(e: Entries, key: Seq<char>) -> Option<i64> {
    match lookup(e, key) {
        Some(Value::DateTime(ms)) => Some(ms),
        _ => None,
    }
}

/// The entries of the document stored under `key`, if the value there is an
/// embedded document.
pub open spec fn document_in(e: Entries, key: Seq<char>) -> Option<Entries> {
    match lookup(e, key) {
        Some(Value::Document(inner)) => Some(inner),
        _ => None,
    }
}

/// The entries of the optional document stored under `key`: none where the
/// key is absent or holds null, the document's where it holds one. A value
/// of another kind is no optional document.
pub open spec fn optional_document_in(e: Entries, key: Seq<char>) -> Option<Option<Entries>> {
    match lookup(e, key) {
        None => Some(None),
        Some(Value::Null) => Some(None),
        Some(Value::Document(inner)) => Some(Some(inner)),
        _ => None,
    }
}

/// The elements of the array stored under `key`, if the value there is an
/// array.
pub open spec fn array_in(e: Entries, key: Seq<char>) -> Option<Seq<Value>> {
    match lookup(e, key) {
        Some(Value::Array(items)) => Some(items),
        _ => None,
    }
}

/// Reads the string stored under `key`.
pub fn text_at(d: &Document, key: &str) -> (r: Option<String>)
    ensures
        match text_in(entries(*d), key@) {
            Some(s) => r matches Some(t) && t@ == s,
            None => r is None,
        },
{
    match get(d, key) {
        Some(found) => match as_str(found) {
            Some(s) => Some(s.to_owned()),
            None => None,
        },
        None => None,
    }
}

/// Reads the flag stored under `key`.
pub fn flag_at(d: &Document, key: &str) -> (r: Option<bool>)
    ensures
        r == flag_in(entries(*d), key@),
{
    match get(d, key) {
        Some(found) => as_bool(found),
        None => None,
    }
}

/// Reads the object identifier stored under `key`.
pub fn identifier_at(d: &Document, key: &str) -> (r: Option<ObjectId>)
    ensures
        match identifier_in(entries(*d), key@) {
            Some(bytes) => r matches Some(id) && oid_bytes(id) == bytes,
            None => r is None,
        },
{
    match get(d, key) {
        Some(found) => as_object_id(found),
        None => None,
    }
}

/// Reads the instant stored under `key`.
pub fn instant_at(d: &Document, key: &str) -> (r: Option<DateTime>)
    ensures
        match instant_in(entries(*d), key@) {
            Some(ms) => r matches Some(t) && millis(t) == ms,
            None => r is None,
        },
{
    match get(d, key) {
        Some(found) => as_datetime(found),
        None => None,
    }
}

/// Reads the embedded document stored under `key`.
pub fn document_at(d: &Document, key: &str) -> (r: Option<Document>)
    ensures
        match document_in(entries(*d), key@) {
            Some(inner) => r matches Some(found) && entries(found) == inner,
            None => r is None,
        },
{
    match get(d, key) {
        Some(found) => match as_document(found) {
            Some(inner) => Some(inner.clone()),
            None => None,
        },
        None => None,
    }
}

/// Reads the optional document stored under `key`. The outer `None` says
/// that the value there is neither a document nor null.
pub fn optional_document_at(d: &Document, key: &str) -> (r: Option<Option<Document>>)
    ensures
        match optional_document_in(entries(*d), key@) {
            Some(Some(inner)) => r matches Some(Some(found)) && entries(found) == inner,
            Some(None) => r == Some(None::<Document>),
            None => r is None,
        },
{
    match get(d, key) {
        None => Some(None),
        Some(found) => match as_document(found) {
            Some(inner) => Some(Some(inner.clone())),
            None => match as_null(found) {
                Some(_) => Some(None),
                None => None,
            },
        },
    }
}

/// Reads the array stored under `key`.
pub fn array_at<'a>(d: &'a Document, key: &str) -> (r: Option<&'a Vec<Bson>>)
    ensures
        match array_in(entries(*d), key@) {
            Some(items) => r matches Some(found) && values(found@) == items,
            None => r is None,
        },
{
    match get(d, key) {
        Some(found) => as_array(found),
        None => None,
    }
}

/// The failure a reply with the key `error` stands for: the service's
/// message verbatim, or a protocol violation where the message is no
/// string.
pub open spec fn reported(reply: Entries) -> Cause {
    match text_in(reply, "error"@) {
        Some(message) => Cause::Service(message),
        None => Cause::ProtocolViolation,
    }
}

/// Reads the failure a reply with the key `error` stands for.
pub fn report(reply: &Document) -> (f: Failure)
    ensures
        f@ == reported(entries(*reply)),
{
    match text_at(reply, "error") {
        Some(message) => Failure::Service(message),
        None => Failure::ProtocolViolation,
    }
}

/// An optional string as a value: the string, or null.
pub open spec fn text_or_null(s: Option<String>) -> Value {
    match s {
        Some(s) => Value::Text(s@),
        None => Value::Null,
    }
}

/// An optional flag as a value: the boolean, or null.
pub open spec fn flag_or_null(flag: Option<bool>) -> Value {
    match flag {
        Some(flag) => Value::Boolean(flag),
        None => Value::Null,
    }
}

/// An optional document as a value: the document embedded, or null.
pub open spec fn document_or_null(d: Option<Document>) -> Value {
    match d {
        Some(d) => Value::Document(entries(d)),
        None => Value::Null,
    }
}

/// An optional array as a value: the array, or null.
pub open spec fn array_or_null(items: Option<Vec<Bson>>) -> Value {
    match items {
        Some(items) => Value::Array(values(items@)),
        None => Value::Null,
    }
}

/// An optional 32-bit count as a value: a 64-bit integer, or null.
pub open spec fn count_or_null(n: Option<u32>) -> Value {
    match n {
        Some(n) => Value::Int64(n as i64),
        None => Value::Null,
    }
}

/// An optional 64-bit amount as a value: a 64-bit signed integer where the
/// amount fits one, or null. An amount beyond that has no value.
pub open spec fn amount_or_null(n: Option<u64>) -> Option<Value> {
    match n {
        Some(n) => if n <= i64::MAX {
            Some(Value::Int64(n as i64))
        } else {
            None
        },
        None => Some(Value::Null),
    }
}

/// The value of an optional string.
pub fn optional_text(s: &Option<String>) -> (b: Bson)
    ensures
        value(b) == text_or_null(*s),
{
    match s {
        Some(s) => text(s.as_str()),
        None => null(),
    }
}

/// The value of an optional flag.
pub fn optional_flag(flag: Option<bool>) -> (b: Bson)
    ensures
        value(b) == flag_or_null(flag),
{
    match flag {
        Some(flag) => boolean(flag),
        None => null(),
    }
}

/// The value of an optional document.
pub fn optional_document(d: &Option<Document>) -> (b: Bson)
    ensures
        value(b) == document_or_null(*d),
{
    match d {
        Some(d) => embedded(d),
        None => null(),
    }
}

/// The value of an optional array.
pub fn optional_array(items: &Option<Vec<Bson>>) -> (b: Bson)
    ensures
        value(b) == array_or_null(*items),
{
    match items {
        Some(items) => array(items),
        None => null(),
    }
}

/// The value of an optional 32-bit count.
pub fn optional_count(n: Option<u32>) -> (b: Bson)
    ensures
        value(b) == count_or_null(n),
{
    match n {
        Some(n) => int64(n as i64),
        None => null(),
    }
}

/// The value of an optional 64-bit amount, where it has one.
pub fn optional_amount(n: Option<u64>) -> (b: Option<Bson>)
    ensures
        match amount_or_null(n) {
            Some(v) => b matches Some(found) && value(found) == v,
            None => b is None,
        },
{
    match n {
        Some(n) => if n <= 0x7fff_ffff_ffff_ffff {
            Some(int64(n as i64))
        } else {
            None
        },
        None => Some(null()),
    }
}

} // verus!
