//! Client-side core: response validation mirroring the dispatcher's checks
//! (defense in depth) and transport-error translation.

use vstd::prelude::*;

use crate::err::TransactionProcessingError;

verus! {

/// Any transport-level failure surfaces as an error of kind `Unknown`
/// carrying the transport's message; no retry is performed by this layer.
pub fn transport_failure(message: String) -> (r: TransactionProcessingError)
    ensures
        r == TransactionProcessingError::Unknown(message),
{
    TransactionProcessingError::Unknown(message)
}

} // verus!
