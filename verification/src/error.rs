//! The failure kinds of the uploader.

use vstd::prelude::*;

verus! {

/// Why an operation of the uploader failed.
///
/// `InvalidSize` and `InvalidRequest` report misuse and are never retried.
/// `NetworkError` and `MissingETag` are the two transient failures of one
/// send; a part upload surfaces them only as the last failure seen before
/// `RetriesExhausted`.
#[derive(Clone, Copy, Debug, PartialEq, Eq, Structural)]
pub enum ErrorKind {
    /// The file to plan is empty.
    InvalidSize,
    /// The request cannot be built from the URL given.
    InvalidRequest,
    /// The transport failed: no response, or a malformed one.
    NetworkError,
    /// A response arrived without a readable `ETag` header.
    MissingETag,
    /// Every retry allowed was used up.
    RetriesExhausted,
}

impl ErrorKind {
    /// Whether a send that ended in this kind is tried again.
    pub open spec fn is_transient(self) -> bool {
        self == ErrorKind::NetworkError || self == ErrorKind::MissingETag
    }

    /// The text under which this kind is reported.
    pub open spec fn name_spec(self) -> Seq<char> {
        match self {
            ErrorKind::InvalidSize => "InvalidSize"@,
            ErrorKind::InvalidRequest => "InvalidRequest"@,
            ErrorKind::NetworkError => "NetworkError"@,
            ErrorKind::MissingETag => "MissingETag"@,
            ErrorKind::RetriesExhausted => "RetriesExhausted"@,
        }
    }

    /// The kind as text, for the consumer that takes `kind` as a string.
    pub fn name(&self) -> (s: &'static str)
        ensures
            s@ == self.name_spec(),
    {
        match self {
            ErrorKind::InvalidSize => "InvalidSize",
            ErrorKind::InvalidRequest => "InvalidRequest",
            ErrorKind::NetworkError => "NetworkError",
            ErrorKind::MissingETag => "MissingETag",
            ErrorKind::RetriesExhausted => "RetriesExhausted",
        }
    }

    /// Whether a send that ended in this kind is tried again.
    pub fn transient(&self) -> (b: bool)
        ensures
            b == self.is_transient(),
    {
        match self {
            ErrorKind::NetworkError => true,
            ErrorKind::MissingETag => true,
            _ => false,
        }
    }
}

} // verus!
