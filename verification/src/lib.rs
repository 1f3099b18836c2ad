//! RPC facade core for a pluggable transaction-submission backend: finality
//! status codec, capacity tracking, utilization policy, request validation
//! and error translation. Transport wiring lives outside this crate.

use vstd::prelude::*;

pub mod client;
pub mod err;
pub mod server;

use crate::err::TransactionProcessingError;

verus! {

/// A 32-byte value identifying the current tip of the ledger. The invariant
/// is exactly 32 bytes; any other length is a protocol violation and never
/// constructs a value of this type.
#[derive(Debug)]
pub struct ChainReference {
    bytes: Vec<u8>,
}

impl View for ChainReference {
    type V = Seq<u8>;

    closed spec fn view(&self) -> Seq<u8> {
        self.bytes@
    }
}

impl ChainReference {
    #[verifier::type_invariant]
    spec fn inv(self) -> bool {
        self.bytes@.len() == 32
    }

    /// Validate a response payload as a chain reference: a payload of any
    /// length other than 32 bytes is rejected with `PayloadWrongSize`
    /// carrying that exact length; a 32-byte payload is kept verbatim.
    pub fn from_bytes(bytes: Vec<u8>) -> (r: Result<ChainReference, TransactionProcessingError>)
        ensures
            bytes@.len() == 32 ==> (r matches Ok(c) && c@ == bytes@),
            bytes@.len() != 32 ==> r == Err::<ChainReference, TransactionProcessingError>(
                TransactionProcessingError::PayloadWrongSize(bytes@.len() as usize),
            ),
    {
        let n = bytes.len();
        if n != 32 {
            Err(TransactionProcessingError::PayloadWrongSize(n))
        } else {
            Ok(ChainReference { bytes })
        }
    }

    /// The reference's bytes, unmodified; always exactly 32 of them.
    pub fn into_bytes(self) -> (r: Vec<u8>)
        ensures
            r@ == self@,
            r@.len() == 32,
    {
        proof {
            use_type_invariant(&self);
        }
        self.bytes
    }

    /// Read access to the reference's bytes; always exactly 32 of them.
    pub fn as_bytes(&self) -> (r: &Vec<u8>)
        ensures
            r@ == self@,
            r@.len() == 32,
    {
        proof {
            use_type_invariant(self);
        }
        &self.bytes
    }
}

/// Fill a transmission buffer with a payload, byte for byte. The caller's
/// buffer must already have exactly the payload's length: a mismatched size
/// is a precondition violation that this layer does not silently repair.
pub fn copy_into_buffer(payload: &Vec<u8>, buffer: &mut Vec<u8>)
    requires
        old(buffer)@.len() == payload@.len(),
    ensures
        final(buffer)@ == payload@,
{
    buffer.clear();
    let mut i: usize = 0;
    while i < payload.len()
        invariant
            i <= payload@.len(),
            buffer@ == payload@.subrange(0, i as int),
        decreases payload@.len() - i,
    {
        buffer.push(payload[i]);
        i = i + 1;
        assert(buffer@ =~= payload@.subrange(0, i as int));
    }
    assert(buffer@ =~= payload@);
}

/// Decide the utilization ratio for one streaming tick. `None` means the
/// fail-safe ratio of exactly one: the capacity is zero or unknown, or one
/// of the counters is at an unrealistic magnitude where a computed ratio
/// would be numerically dubious. `Some((n, d))` means the ratio is the true
/// fraction n/d, left to the caller to evaluate.
pub fn safe_divide_policy(numerator: u64, denominator: u64) -> (r: Option<(u64, u64)>)
    ensures
        denominator == 0 ==> r is None,
        numerator >= 100_000_000 || denominator >= 100_000_000 ==> r is None,
        (denominator != 0 && numerator < 100_000_000 && denominator < 100_000_000) ==> r == Some(
            (numerator, denominator),
        ),
{
    if denominator == 0 {
        None
    } else if 100_000_000 <= numerator || 100_000_000 <= denominator {
        None
    } else {
        Some((numerator, denominator))
    }
}

/// Degree of confidence that a submitted transaction is permanently part of
/// the ledger; ordinal order is increasing finality strength.
#[derive(Clone, Copy, Debug, PartialEq, Eq, Structural)]
pub enum FinalityStatus {
    Submitted,
    Confirmed,
    Finalized,
}

/// Wire ordinal of a finality status: Submitted=0, Confirmed=1, Finalized=2.
pub open spec fn status_ordinal(s: FinalityStatus) -> int {
    match s {
        FinalityStatus::Submitted => 0,
        FinalityStatus::Confirmed => 1,
        FinalityStatus::Finalized => 2,
    }
}

/// The finality status a wire ordinal decodes to: unknown ordinals default
/// to Submitted (lossy, defensive).
pub open spec fn status_of_ordinal(code: int) -> FinalityStatus {
    if code == 1 {
        FinalityStatus::Confirmed
    } else if code == 2 {
        FinalityStatus::Finalized
    } else {
        FinalityStatus::Submitted
    }
}

/// Decode a wire ordinal; unknown ordinals default to Submitted.
pub fn status_from_i32(status_code: i32) -> (r: FinalityStatus)
    ensures
        r == status_of_ordinal(status_code as int),
{
    match status_code {
        0 => FinalityStatus::Submitted,
        1 => FinalityStatus::Confirmed,
        2 => FinalityStatus::Finalized,
        _ => FinalityStatus::Submitted,
    }
}

/// Encode a finality status as its wire ordinal.
pub fn status_to_i32(status: FinalityStatus) -> (r: i32)
    ensures
        r == status_ordinal(status),
{
    match status {
        FinalityStatus::Submitted => 0,
        FinalityStatus::Confirmed => 1,
        FinalityStatus::Finalized => 2,
    }
}

/// Every finality status survives a round trip through its wire ordinal.
pub proof fn lemma_status_round_trip(s: FinalityStatus)
    ensures
        status_of_ordinal(status_ordinal(s)) == s,
{
}

/// Every in-range wire ordinal survives a round trip through the status it
/// decodes to; out-of-range ordinals all land on Submitted's ordinal.
pub proof fn lemma_ordinal_round_trip(code: int)
    ensures
        0 <= code <= 2 ==> status_ordinal(status_of_ordinal(code)) == code,
        !(0 <= code <= 2) ==> status_ordinal(status_of_ordinal(code)) == 0,
{
}

} // verus!
