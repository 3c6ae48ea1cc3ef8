use vstd::prelude::*;

verus! {

/// The category of a failure surfaced by a fallible operation.
///
/// Every fallible operation of this crate reports its failure as one of
/// these categories together with a diagnostic detail string.
#[derive(Clone, Copy, Debug, PartialEq, Eq, Structural)]
pub enum ErrorKind {
    /// An identity or signing key of the wrong size was supplied.
    InvalidInput,
    /// The given session id names no live session.
    SessionNotFound,
    /// A provider storage write failed.
    StorageError,
    /// TLS deserialization of incoming bytes failed.
    DecodeError,
    /// A key package or message failed cryptographic validation.
    ValidationError,
    /// The envelope variant did not match the expected operation.
    UnexpectedMessageType,
    /// The group id names no group in this session's storage.
    GroupNotFound,
    /// A group with the given id already exists in this session.
    GroupExists,
    /// The MLS operation itself was refused.
    ProtocolError,
    /// TLS re-serialization of an outgoing object failed.
    SerializeError,
}

/// An operation failure: a stable category plus free-form diagnostic text.
#[derive(Debug)]
pub struct MlsError {
    pub kind: ErrorKind,
    pub detail: String,
}

/// The stable text prefix reported for each error category.
pub open spec fn kind_prefix(kind: ErrorKind) -> Seq<char> {
    match kind {
        ErrorKind::InvalidInput => "invalid input: "@,
        ErrorKind::SessionNotFound => "session not found: "@,
        ErrorKind::StorageError => "storage: "@,
        ErrorKind::DecodeError => "deserialize: "@,
        ErrorKind::ValidationError => "validate: "@,
        ErrorKind::UnexpectedMessageType => "unexpected message type: "@,
        ErrorKind::GroupNotFound => "group not found: "@,
        ErrorKind::GroupExists => "group exists: "@,
        ErrorKind::ProtocolError => "protocol: "@,
        ErrorKind::SerializeError => "serialize: "@,
    }
}

impl MlsError {
    /// Builds an error of the given category around a detail message.
    pub fn new(kind: ErrorKind, detail: String) -> (r: MlsError)
        ensures
            r.kind == kind,
            r.detail@ == detail@,
    {
        MlsError { kind, detail }
    }

    /// Builds an error of the given category around a borrowed detail message.
    pub fn from_parts(kind: ErrorKind, detail: &str) -> (r: MlsError)
        ensures
            r.kind == kind,
            r.detail@ == detail@,
    {
        MlsError { kind, detail: String::from_str(detail) }
    }

    /// Renders the error as the category's stable prefix followed by the
    /// detail text, so callers may pattern-match on the prefix.
    pub fn describe(&self) -> (r: String)
        ensures
            r@ == kind_prefix(self.kind) + self.detail@,
    {
        let prefix: &str = match self.kind {
            ErrorKind::InvalidInput => "invalid input: ",
            ErrorKind::SessionNotFound => "session not found: ",
            ErrorKind::StorageError => "storage: ",
            ErrorKind::DecodeError => "deserialize: ",
            ErrorKind::ValidationError => "validate: ",
            ErrorKind::UnexpectedMessageType => "unexpected message type: ",
            ErrorKind::GroupNotFound => "group not found: ",
            ErrorKind::GroupExists => "group exists: ",
            ErrorKind::ProtocolError => "protocol: ",
            ErrorKind::SerializeError => "serialize: ",
        };
        let mut out = String::from_str(prefix);
        out.append(self.detail.as_str());
        out
    }
}

} // verus!
