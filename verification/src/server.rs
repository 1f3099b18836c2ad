//! Server-side core: the capacity tracker shared by all submission handlers,
//! the utilization policy sampled by streaming reporters, and the dispatcher
//! steps that validate backend responses and settle submissions.

use vstd::prelude::*;
use vstd::wrapping::u64_specs;

use crate::err::TransactionProcessingError;
use crate::{status_ordinal, FinalityStatus};

verus! {

/// Tracks total capacity and bytes currently in flight for one running
/// service instance. The gauge is best-effort: counters wrap like the
/// machine's atomic add and subtract, and nothing here guards against
/// underflow from mismatched pairing, which is a caller bug.
#[derive(Debug, Clone, Copy)]
pub struct CapacityImpl {
    /// Bytes currently in flight; incremented when sending transactions.
    pub used: u64,
    /// Total capacity in bytes per second.
    pub total: u64,
}

impl Default for CapacityImpl {
    /// A fresh tracker starts with both counters at zero.
    fn default() -> (r: Self)
        ensures
            r.used == 0,
            r.total == 0,
    {
        CapacityImpl { used: 0, total: 0 }
    }
}

impl CapacityImpl {
    /// Unconditionally overwrite the total capacity.
    pub fn total_adjust(&mut self, total: u64)
        ensures
            final(self).total == total,
            final(self).used == old(self).used,
    {
        self.total = total;
    }

    /// Add `sent` to the in-flight gauge, wrapping on overflow, and return
    /// the pre-update value.
    pub fn mark_sending(&mut self, sent: u64) -> (prev: u64)
        ensures
            prev == old(self).used,
            final(self).used == u64_specs::wrapping_add(old(self).used, sent),
            final(self).total == old(self).total,
    {
        let prev = self.used;
        self.used = prev.wrapping_add(sent);
        prev
    }

    /// Subtract `sent` from the in-flight gauge, wrapping on underflow, and
    /// return the pre-update value.
    pub fn mark_sent(&mut self, sent: u64) -> (prev: u64)
        ensures
            prev == old(self).used,
            final(self).used == u64_specs::wrapping_sub(old(self).used, sent),
            final(self).total == old(self).total,
    {
        let prev = self.used;
        self.used = prev.wrapping_sub(sent);
        prev
    }

    /// One reporter tick: sample both counters and decide the utilization
    /// ratio under the fail-safe policy. `None` stands for the fail-safe
    /// ratio of exactly one; `Some((n, d))` for the true fraction n/d.
    pub fn utilization_tick(&self) -> (r: Option<(u64, u64)>)
        ensures
            self.total == 0 ==> r is None,
            self.used >= 100_000_000 || self.total >= 100_000_000 ==> r is None,
            (self.total != 0 && self.used < 100_000_000 && self.total < 100_000_000) ==> r == Some(
                (self.used, self.total),
            ),
    {
        crate::safe_divide_policy(self.used, self.total)
    }
}

/// Settle a submission after the backend's outcome is in: release the bytes
/// reserved by the matching `mark_sending` on every path, success or
/// failure, so that a backend failure cannot leak the reservation, and
/// translate the outcome for the wire: the slot with the status's ordinal
/// on success, the backend's error unchanged on failure.
pub fn submit_settle(
    capacity: &mut CapacityImpl,
    payload_len: u64,
    outcome: Result<(u64, FinalityStatus), TransactionProcessingError>,
) -> (r: Result<(u64, i32), TransactionProcessingError>)
    ensures
        final(capacity).used == u64_specs::wrapping_sub(old(capacity).used, payload_len),
        final(capacity).total == old(capacity).total,
        (outcome matches Ok((slot, status)) ==> r == Ok::<(u64, i32), TransactionProcessingError>(
            (slot, status_ordinal(status) as i32),
        )),
        (outcome matches Err(e) ==> r == Err::<(u64, i32), TransactionProcessingError>(e)),
{
    capacity.mark_sent(payload_len);
    match outcome {
        Ok((slot, status)) => Ok((slot, crate::status_to_i32(status))),
        Err(e) => Err(e),
    }
}

/// A `mark_sending(n)` paired with a `mark_sent(n)` leaves the in-flight
/// gauge exactly where it was before the pair, for any `n` and any prior
/// gauge value: subtracting `n` undoes adding `n` even across a wrap. The
/// submission path is an instance: it reserves a payload's length before the
/// backend call and `submit_settle` releases the same length afterwards,
/// whatever the backend's outcome, so the gauge returns to its
/// pre-submission value on success and failure alike.
pub proof fn lemma_mark_pair_restores(used: u64, n: u64)
    ensures
        u64_specs::wrapping_sub(u64_specs::wrapping_add(used, n), n) == used,
{
}

/// The in-flight gauge reduced to the machine word: an arbitrary integer,
/// wrapped into the `u64` range.
pub open spec fn wrap64(x: int) -> u64 {
    (x % 0x1_0000_0000_0000_0000) as u64
}

/// The gauge after a sequence of unit marks has run against it, one at a
/// time, in the order given: `true` stands for a `mark_sending(1)`, `false`
/// for a `mark_sent(1)`.
pub open spec fn apply_unit_marks(start: u64, ops: Seq<bool>) -> u64
    decreases ops.len(),
{
    if ops.len() == 0 {
        start
    } else {
        let next = if ops[0] {
            u64_specs::wrapping_add(start, 1)
        } else {
            u64_specs::wrapping_sub(start, 1)
        };
        apply_unit_marks(next, ops.drop_first())
    }
}

/// How many of the marks in a sequence are `mark_sending(1)` steps.
pub open spec fn count_sending(ops: Seq<bool>) -> int
    decreases ops.len(),
{
    if ops.len() == 0 {
        0
    } else {
        (if ops[0] { 1int } else { 0int }) + count_sending(ops.drop_first())
    }
}

/// Wrapping a value and then adding to it lands where adding first and
/// wrapping once would.
proof fn lemma_wrap64_add(x: int, y: int)
    ensures
        wrap64(wrap64(x) as int + y) == wrap64(x + y),
{
    let m = 0x1_0000_0000_0000_0000int;
    vstd::arithmetic::div_mod::lemma_fundamental_div_mod(x, m);
    assert(wrap64(x) as int == x - m * (x / m));
    vstd::arithmetic::div_mod::lemma_mod_multiples_vanish(-(x / m), x + y, m);
    assert(m * (-(x / m)) + (x + y) == x - m * (x / m) + y) by (nonlinear_arith);
}

/// One unit mark moves the gauge exactly one step through the wrapped range.
proof fn lemma_unit_step(start: u64, sending: bool)
    ensures
        sending ==> u64_specs::wrapping_add(start, 1) == wrap64(start + 1),
        !sending ==> u64_specs::wrapping_sub(start, 1) == wrap64(start - 1),
{
    let m = 0x1_0000_0000_0000_0000int;
    if sending {
        if start + 1 <= u64::MAX {
            vstd::arithmetic::div_mod::lemma_small_mod((start + 1) as nat, m as nat);
        } else {
            vstd::arithmetic::div_mod::lemma_mod_self_0(m);
        }
    } else {
        if start >= 1 {
            vstd::arithmetic::div_mod::lemma_small_mod((start - 1) as nat, m as nat);
        } else {
            vstd::arithmetic::div_mod::lemma_mod_multiples_vanish(1, -1, m);
            vstd::arithmetic::div_mod::lemma_small_mod((m - 1) as nat, m as nat);
        }
    }
}

/// Running a sequence of unit marks lands the gauge at the start value plus
/// the sequence's net signed count, wrapped once — wherever in the order the
/// sending and sent steps fall.
pub proof fn lemma_apply_unit_marks(start: u64, ops: Seq<bool>)
    ensures
        apply_unit_marks(start, ops) == wrap64(
            start + count_sending(ops) - (ops.len() - count_sending(ops)),
        ),
    decreases ops.len(),
{
    if ops.len() == 0 {
        vstd::arithmetic::div_mod::lemma_small_mod(start as nat, 0x1_0000_0000_0000_0000nat);
    } else {
        let d0: int = if ops[0] { 1 } else { -1 };
        let next = if ops[0] {
            u64_specs::wrapping_add(start, 1)
        } else {
            u64_specs::wrapping_sub(start, 1)
        };
        lemma_unit_step(start, ops[0]);
        assert(next == wrap64(start + d0));
        let rest = ops.drop_first();
        lemma_apply_unit_marks(next, rest);
        let net_rest = count_sending(rest) - (rest.len() - count_sending(rest));
        lemma_wrap64_add(start + d0, net_rest);
        assert(count_sending(ops) == (if ops[0] { 1int } else { 0int }) + count_sending(rest));
        assert(start + d0 + net_rest == start + count_sending(ops) - (ops.len() - count_sending(
            ops,
        )));
    }
}

/// Any interleaving of N `mark_sending(1)` steps and N `mark_sent(1)` steps
/// leaves the gauge at its original value: the order of the marks does not
/// matter, and no update is lost.
pub proof fn lemma_balanced_unit_marks(start: u64, ops: Seq<bool>)
    requires
        2 * count_sending(ops) == ops.len(),
    ensures
        apply_unit_marks(start, ops) == start,
{
    lemma_apply_unit_marks(start, ops);
    vstd::arithmetic::div_mod::lemma_small_mod(start as nat, 0x1_0000_0000_0000_0000nat);
}

} // verus!
