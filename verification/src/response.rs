//! The inbound side: telling the shapes of a reply apart.

use vstd::prelude::*;
use bson::{Bson, Document};
use crate::document::{as_array, as_document, as_str, clone_array, entries, get, values};
use crate::value::{Entries, Value, has_key, lookup};
use crate::error::{Cause, Failure, outcome};

verus! {

/// What the service answered.
#[allow(non_camel_case_types)]
#[derive(Debug)]
pub enum Response {
    /// A single document: the answer to a unique-result query, or the
    /// acknowledgement of a create, update, delete or management operation.
    result(Document),
    /// The documents a query matched.
    results(Vec<Bson>),
    /// The failure the service reported, in its own words.
    error(String),
}

/// A response as contracts speak of it.
pub enum Reply {
    Result(Entries),
    Results(Seq<Value>),
    Error(Seq<char>),
}

impl View for Response {
    type V = Reply;

    open spec fn view(&self) -> Reply {
        match self {
            Response::result(d) => Reply::Result(entries(*d)),
            Response::results(items) => Reply::Results(values(items@)),
            Response::error(text) => Reply::Error(text@),
        }
    }
}

/// Which discriminator a reply carries.
#[derive(Clone, Copy, Debug, PartialEq, Eq, Structural)]
pub enum Shape {
    /// The reply has the key `result`.
    Result,
    /// The reply has the key `results` and not `result`.
    Results,
    /// The reply has the key `error` and neither `result` nor `results`.
    Error,
    /// The reply has none of the three keys.
    Bare,
}

/// The shape of a reply: the first of `result`, `results`, `error` that is
/// among its keys, whatever else it holds.
pub open spec fn shape_of(reply: Entries) -> Shape {
    if has_key(reply, "result"@) {
        Shape::Result
    } else if has_key(reply, "results"@) {
        Shape::Results
    } else if has_key(reply, "error"@) {
        Shape::Error
    } else {
        Shape::Bare
    }
}

/// What a reply amounts to. The discriminator is chosen by key presence
/// alone; the value under it must be of the kind the discriminator calls
/// for. A reply without discriminator is itself the result.
pub open spec fn discriminated(reply: Entries) -> Result<Reply, Cause> {
    match shape_of(reply) {
        Shape::Result => match lookup(reply, "result"@) {
            Some(Value::Document(inner)) => Ok(Reply::Result(inner)),
            _ => Err(Cause::ProtocolViolation),
        },
        Shape::Results => match lookup(reply, "results"@) {
            Some(Value::Array(items)) => Ok(Reply::Results(items)),
            _ => Err(Cause::ProtocolViolation),
        },
        Shape::Error => match lookup(reply, "error"@) {
            Some(Value::Text(text)) => Ok(Reply::Error(text)),
            _ => Err(Cause::ProtocolViolation),
        },
        Shape::Bare => Ok(Reply::Result(reply)),
    }
}

/// Tells which discriminator a reply carries.
pub fn shape(reply: &Document) -> (s: Shape)
    ensures
        s == shape_of(entries(*reply)),
{
    if get(reply, "result").is_some() {
        Shape::Result
    } else if get(reply, "results").is_some() {
        Shape::Results
    } else if get(reply, "error").is_some() {
        Shape::Error
    } else {
        Shape::Bare
    }
}

/// Classifies a decoded reply.
///
/// A service-reported error is a response, not a failure. The only failure
/// is a discriminator whose value is of the wrong kind.
pub fn discriminate(reply: Document) -> (r: Result<Response, Failure>)
    ensures
        outcome(r) == discriminated(entries(reply)),
{
    match shape(&reply) {
        Shape::Result => match get(&reply, "result") {
            Some(found) => match as_document(found) {
                Some(inner) => Ok(Response::result(inner.clone())),
                None => Err(Failure::ProtocolViolation),
            },
            None => Err(Failure::ProtocolViolation),
        },
        Shape::Results => match get(&reply, "results") {
            Some(found) => match as_array(found) {
                Some(items) => Ok(Response::results(clone_array(items))),
                None => Err(Failure::ProtocolViolation),
            },
            None => Err(Failure::ProtocolViolation),
        },
        Shape::Error => match get(&reply, "error") {
            Some(found) => match as_str(found) {
                Some(text) => Ok(Response::error(text.to_owned())),
                None => Err(Failure::ProtocolViolation),
            },
            None => Err(Failure::ProtocolViolation),
        },
        Shape::Bare => Ok(Response::result(reply)),
    }
}

} // verus!
