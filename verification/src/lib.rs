//! Typed client-side protocol layer for a remote document-store service.
//!
//! A caller states an intent as a [`Request`], the library turns it into the
//! service's wire envelope, and the reply that comes back is classified into
//! a typed [`Response`]. The library never touches the network: the
//! transport is a function the caller hands in, from encoded request to
//! encoded reply.
//!
//! * [`action`], [`request`]: what can be asked, and the requests that ask it.
//! * [`protocol`]: envelope, encoding, the exchange, and [`execute`].
//! * [`response`]: the discrimination of replies.
//! * [`repository`]: entity-level operations and their typed requests and
//!   replies.
//! * [`client`]: start-up settings and the once-only initialisation.
//! * [`error`]: the failures an operation can end in.
//! * [`value`], [`document`], [`field`]: documents as mathematical values,
//!   what is assumed of the `bson` crate, and typed access to fields.
//! * [`laws`]: what holds of the protocol as a whole.

pub mod action;
pub mod client;
pub mod document;
pub mod error;
pub mod field;
pub mod laws;
pub mod protocol;
pub mod repository;
pub mod request;
pub mod response;
pub mod value;

pub use action::Action;
pub use client::{init, Configuration, Logger};
pub use error::Failure;
pub use protocol::execute;
pub use request::Request;
pub use response::Response;
