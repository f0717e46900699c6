//! The failures an operation can end in.

use vstd::prelude::*;

verus! {

/// Why an operation failed. No failure is retried or swallowed by this
/// library; each is handed to the caller as it arose.
#[derive(Debug, Clone, PartialEq, Eq)]
pub enum Failure {
    /// The envelope could not be built: an update's payload carries no
    /// object identifier under `_id`. Nothing was sent.
    MissingIdentifier,
    /// The envelope could not be built: it has no byte encoding. Nothing was
    /// sent. Carries the encoder's description.
    Encoding(String),
    /// The transport failed to deliver the request or the reply. Carries the
    /// transport's description unchanged.
    Transport(String),
    /// The reply's bytes are not a document. Carries the decoder's
    /// description.
    Decode(String),
    /// The service reported a failure. Carries its message verbatim.
    Service(String),
    /// The reply is a document, but not one the operation can accept.
    ProtocolViolation,
}

/// A failure as contracts speak of it: the kind, and the text where the text
/// is fixed by the inputs.
pub enum Cause {
    MissingIdentifier,
    Encoding,
    Transport(Seq<char>),
    Decode,
    Service(Seq<char>),
    ProtocolViolation,
}

impl View for Failure {
    type V = Cause;

    open spec fn view(&self) -> Cause {
        match self {
            Failure::MissingIdentifier => Cause::MissingIdentifier,
            Failure::Encoding(_) => Cause::Encoding,
            Failure::Transport(text) => Cause::Transport(text@),
            Failure::Decode(_) => Cause::Decode,
            Failure::Service(text) => Cause::Service(text@),
            Failure::ProtocolViolation => Cause::ProtocolViolation,
        }
    }
}

/// A result as contracts speak of it: the view of what it carries, or the
/// failure's cause.
pub open spec fn outcome<T: View>(r: Result<T, Failure>) -> Result<T::V, Cause> {
    match r {
        Ok(t) => Ok(t@),
        Err(f) => Err(f@),
    }
}

impl Cause {
    /// Whether the failure arose while building the envelope, before
    /// anything was sent.
    pub open spec fn is_construction(self) -> bool {
        self is MissingIdentifier || self is Encoding
    }
}

impl Failure {
    /// Whether the failure arose while building the envelope, before
    /// anything was sent.
    pub fn is_construction(&self) -> (r: bool)
        ensures
            r == self@.is_construction(),
    {
        match self {
            Failure::MissingIdentifier => true,
            Failure::Encoding(_) => true,
            _ => false,
        }
    }

    /// A description of the failure for people to read: the text the
    /// failure carries, passed on as it came, or a fixed sentence for a
    /// failure that carries none.
    pub fn message(&self) -> (text: String)
        ensures
            match *self {
                Failure::MissingIdentifier => text@ == "Missing object identifier in document"@,
                Failure::Encoding(t) => text@ == t@,
                Failure::Transport(t) => text@ == t@,
                Failure::Decode(t) => text@ == t@,
                Failure::Service(t) => text@ == t@,
                Failure::ProtocolViolation => text@ == "Invalid response from mongo-service"@,
            },
    {
        match self {
            Failure::MissingIdentifier => "Missing object identifier in document".to_owned(),
            Failure::Encoding(text) => text.clone(),
            Failure::Transport(text) => text.clone(),
            Failure::Decode(text) => text.clone(),
            Failure::Service(text) => text.clone(),
            Failure::ProtocolViolation => "Invalid response from mongo-service".to_owned(),
        }
    }
}

} // verus!
