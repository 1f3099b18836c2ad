//! Error taxonomy for the transaction-processing facade.

use vstd::prelude::*;

verus! {

/// Every failure of the dispatcher or the client stub is exactly one of
/// these kinds; the wire layer flattens all of them to a single generic
/// status class with a descriptive message.
#[derive(Debug)]
pub enum TransactionProcessingError {
    /// Listen address invalid or transport-level bind/connect failure.
    NetworkError,
    /// A requested buffer is bigger than what is allowed.
    InsufficientBuffer,
    /// An index is not in the array.
    OutOfRange,
    /// A transport-level failure, carrying the transport's message.
    Unknown(String),
    /// A lower-level error wrapped without reinterpretation.
    GenericError(String),
    /// A response payload has the wrong byte length; carries the observed
    /// length.
    PayloadWrongSize(usize),
}

impl TransactionProcessingError {
    /// The wire status class an error surfaces as. Every kind flattens to
    /// the one generic internal class (gRPC code 13); the taxonomy is not
    /// distinguished at the wire level, and callers needing finer-grained
    /// handling must parse the message.
    pub fn wire_status_code(&self) -> (r: i32)
        ensures
            r == 13,
    {
        13
    }

    /// The fixed, human-readable part of each kind's message. Kinds that
    /// carry a payload (a transport message, a wrapped cause, an observed
    /// length) hold the rest themselves; the wire layer appends it.
    pub fn kind_text(&self) -> (r: &'static str)
        ensures
            (self is NetworkError ==> r@ == "network error occurred"@),
            (self is InsufficientBuffer ==> r@ == "requested buffer is too large"@),
            (self is OutOfRange ==> r@ == "index is out of range"@),
            (self is Unknown ==> r@ == "unknown: "@),
            (self is GenericError ==> r@ == "generic: "@),
            (self is PayloadWrongSize ==> r@ == "payload has the wrong size: "@),
    {
        match self {
            TransactionProcessingError::NetworkError => "network error occurred",
            TransactionProcessingError::InsufficientBuffer => "requested buffer is too large",
            TransactionProcessingError::OutOfRange => "index is out of range",
            TransactionProcessingError::Unknown(_) => "unknown: ",
            TransactionProcessingError::GenericError(_) => "generic: ",
            TransactionProcessingError::PayloadWrongSize(_) => "payload has the wrong size: ",
        }
    }
}

} // verus!
