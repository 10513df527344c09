//! Planning of busy-wait delays on the down-counting wrap timer.
//!
//! A delay of `cycles` processor cycles becomes an ordered sequence of
//! timer operations. The counter spans at most `MAX_RELOAD + 1` cycles
//! in one wait, so larger delays run `cycles >> 24` full-span waits
//! first; a remainder of more than one cycle becomes one further wait
//! whose reload value is the remainder minus one (the counter counts
//! the terminal boundary, so a reload of `r` spans `r + 1` cycles).
//! Every plan ends by disabling the counter.

use vstd::assert_seqs_equal;
use vstd::prelude::*;

verus! {

/// Largest reload value of the 24-bit down counter: one wait spans at
/// most `MAX_RELOAD + 1` cycles.
pub const MAX_RELOAD: u32 = 0xffffff;

/// One operation on the down-counting wrap timer.
#[derive(Clone, Copy, PartialEq, Eq, Structural, Debug)]
pub enum TimerOp {
    /// Load the reload register: the next wait spans `value + 1` cycles.
    SetReload(u32),
    /// Clear the current counter value.
    ClearCurrent,
    /// Start the counter.
    Enable,
    /// Poll until the counter has wrapped once.
    WaitWrap,
    /// Stop the counter.
    Disable,
}

/// How many full maximum-span waits a delay of `cycles` needs.
pub open spec fn spec_full_spans(cycles: u32) -> u32 {
    cycles >> 24
}

/// The cycles left over after the full maximum-span waits.
pub open spec fn spec_remainder(cycles: u32) -> u32 {
    cycles & 0xffffff
}

/// `n` consecutive polls of the wrap flag.
pub open spec fn spec_wait_wraps(n: int) -> Seq<TimerOp>
    decreases n,
{
    if n <= 0 {
        Seq::empty()
    } else {
        spec_wait_wraps(n - 1).push(TimerOp::WaitWrap)
    }
}

/// The timer operations that realize a delay of `cycles` cycles: full
/// maximum-span waits for the high bits, one remainder wait when more
/// than one cycle is left, and a final disable. A delay of 0 or 1
/// cycles configures nothing.
pub open spec fn spec_delay_ops(cycles: u32) -> Seq<TimerOp> {
    (if spec_full_spans(cycles) > 0 {
        seq![TimerOp::SetReload(MAX_RELOAD), TimerOp::ClearCurrent, TimerOp::Enable]
            + spec_wait_wraps(spec_full_spans(cycles) as int)
    } else {
        Seq::empty()
    }) + (if spec_remainder(cycles) > 1 {
        seq![
            TimerOp::SetReload((spec_remainder(cycles) - 1) as u32),
            TimerOp::ClearCurrent,
            TimerOp::Enable,
            TimerOp::WaitWrap,
        ]
    } else {
        Seq::empty()
    }) + seq![TimerOp::Disable]
}

/// Appends to `out` the timer operations that realize a delay of
/// `cycles` processor cycles.
pub fn delay_clock_cycles(cycles: u32, out: &mut Vec<TimerOp>)
    ensures
        final(out)@ == old(out)@ + spec_delay_ops(cycles),
{
    let full_cycles: u32 = cycles >> 24;
    let remainder: u32 = cycles & 0xffffff;
    let ghost prefix: Seq<TimerOp> = old(out)@;
    if full_cycles > 0 {
        out.push(TimerOp::SetReload(MAX_RELOAD));
        out.push(TimerOp::ClearCurrent);
        out.push(TimerOp::Enable);
        let mut i: u32 = 0;
        while i < full_cycles
            invariant
                i <= full_cycles,
                out@ == prefix
                    + seq![TimerOp::SetReload(MAX_RELOAD), TimerOp::ClearCurrent, TimerOp::Enable]
                    + spec_wait_wraps(i as int),
            decreases full_cycles - i,
        {
            out.push(TimerOp::WaitWrap);
            i = i + 1;
        }
    }
    let ghost after_spans: Seq<TimerOp> = out@;
    proof {
        assert_seqs_equal!(
            after_spans,
            prefix + (if spec_full_spans(cycles) > 0 {
                seq![TimerOp::SetReload(MAX_RELOAD), TimerOp::ClearCurrent, TimerOp::Enable]
                    + spec_wait_wraps(spec_full_spans(cycles) as int)
            } else {
                Seq::empty()
            })
        );
    }
    if remainder > 1 {
        out.push(TimerOp::SetReload(remainder - 1));
        out.push(TimerOp::ClearCurrent);
        out.push(TimerOp::Enable);
        out.push(TimerOp::WaitWrap);
    }
    out.push(TimerOp::Disable);
    proof {
        assert_seqs_equal!(out@, prefix + spec_delay_ops(cycles));
    }
}

/// A delay of 0 or 1 cycles configures nothing: its whole plan is the
/// final disable.
pub proof fn lemma_delay_tiny_is_noop(cycles: u32)
    requires
        cycles <= 1,
    ensures
        spec_delay_ops(cycles) =~= seq![TimerOp::Disable],
{
    assert(cycles >> 24 == 0) by (bit_vector)
        requires
            cycles <= 1,
    ;
    assert((cycles & 0xffffff) <= 1) by (bit_vector)
        requires
            cycles <= 1,
    ;
}

/// `spec_wait_wraps(n)` has length `n` and holds only wrap polls.
pub proof fn lemma_wait_wraps_shape(n: int)
    requires
        n >= 0,
    ensures
        spec_wait_wraps(n).len() == n,
        forall|j: int| 0 <= j < n ==> spec_wait_wraps(n)[j] == TimerOp::WaitWrap,
    decreases n,
{
    if n > 0 {
        lemma_wait_wraps_shape(n - 1);
    }
}

/// Every delay plan stops the counter: its last operation is the
/// disable, and no earlier operation is one. No delay leaves the
/// counter running.
pub proof fn lemma_delay_always_disables(cycles: u32)
    ensures
        spec_delay_ops(cycles).len() >= 1,
        spec_delay_ops(cycles).last() == TimerOp::Disable,
        forall|j: int|
            0 <= j < spec_delay_ops(cycles).len() - 1 ==> spec_delay_ops(cycles)[j]
                != TimerOp::Disable,
{
    lemma_wait_wraps_shape(spec_full_spans(cycles) as int);
}

/// The length of a delay plan: three configuration operations plus one
/// poll per full span when there is one, four operations for a
/// remainder wait when there is one, and the final disable.
pub proof fn lemma_delay_ops_len(cycles: u32)
    ensures
        spec_delay_ops(cycles).len() == (if spec_full_spans(cycles) > 0 {
            3 + spec_full_spans(cycles) as int
        } else {
            0
        }) + (if spec_remainder(cycles) > 1 {
            4int
        } else {
            0
        }) + 1,
{
    lemma_wait_wraps_shape(spec_full_spans(cycles) as int);
}

} // verus!
