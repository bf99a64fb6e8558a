//! Time arithmetic of the countdown.
//!
//! A countdown runs for a duration given in whole milliseconds. The clock is
//! read in nanoseconds since the countdown was armed. What is left is the
//! difference of the two, never below zero.

use vstd::prelude::*;

verus! {

/// Nanoseconds in one millisecond.
pub const NANOS_PER_MILLI: u128 = 1_000_000;

/// Nanoseconds in one second.
pub const NANOS_PER_SECOND: u128 = 1_000_000_000;

/// The pause between two readings of the clock, in milliseconds.
pub const TICK_MILLIS: u64 = 100;

/// The pause between two readings of the clock, in nanoseconds.
pub const TICK_NANOS: u128 = 100_000_000;

/// The first number of whole seconds that a `u32` cannot hold.
pub const SECONDS_WRAP: u64 = 0x1_0000_0000;

/// Nanoseconds left of `duration_ms` once `elapsed_nanos` have passed.
pub open spec fn remaining_nanos(duration_ms: u64, elapsed_nanos: u128) -> nat {
    let total = duration_ms as nat * 1_000_000;
    if elapsed_nanos as nat >= total {
        0
    } else {
        (total - elapsed_nanos as nat) as nat
    }
}

/// Whole milliseconds left.
pub open spec fn remaining_millis(duration_ms: u64, elapsed_nanos: u128) -> nat {
    remaining_nanos(duration_ms, elapsed_nanos) / 1_000_000
}

/// Whole seconds left.
pub open spec fn remaining_seconds(duration_ms: u64, elapsed_nanos: u128) -> nat {
    remaining_nanos(duration_ms, elapsed_nanos) / 1_000_000_000
}

/// The count of seconds that an update carries: the whole seconds left,
/// reduced to the 32 bits of the update.
pub open spec fn shown_seconds(duration_ms: u64, elapsed_nanos: u128) -> nat {
    remaining_seconds(duration_ms, elapsed_nanos) % 0x1_0000_0000
}

/// One reading of a running countdown.
#[derive(Clone, Copy, Debug, PartialEq, Eq, Structural)]
pub struct Remaining {
    /// Whole milliseconds left.
    pub millis: u64,
    /// Whole seconds left.
    pub seconds: u64,
}

/// What is left of a countdown of `duration_ms` milliseconds after
/// `elapsed_nanos` nanoseconds.
pub fn remaining(duration_ms: u64, elapsed_nanos: u128) -> (r: Remaining)
    ensures
        r.millis == remaining_millis(duration_ms, elapsed_nanos),
        r.seconds == remaining_seconds(duration_ms, elapsed_nanos),
        r.millis <= duration_ms,
{
    let total: u128 = duration_ms as u128 * NANOS_PER_MILLI;
    let left: u128 = if elapsed_nanos >= total {
        0
    } else {
        total - elapsed_nanos
    };
    let millis: u128 = left / NANOS_PER_MILLI;
    let seconds: u128 = left / NANOS_PER_SECOND;
    Remaining { millis: millis as u64, seconds: seconds as u64 }
}

/// The seconds of a reading as an update carries them.
pub fn shown(seconds: u64) -> (r: u32)
    ensures
        r == seconds % 0x1_0000_0000,
{
    (seconds % SECONDS_WRAP) as u32
}

/// Time never runs backwards for a countdown: a later reading of the clock
/// leaves no more than an earlier one, in milliseconds and in seconds.
pub proof fn lemma_remaining_never_grows(duration_ms: u64, earlier: u128, later: u128)
    requires
        earlier <= later,
    ensures
        remaining_nanos(duration_ms, later) <= remaining_nanos(duration_ms, earlier),
        remaining_millis(duration_ms, later) <= remaining_millis(duration_ms, earlier),
        remaining_seconds(duration_ms, later) <= remaining_seconds(duration_ms, earlier),
{
}

/// A countdown that fits the 32 bits of an update shows its whole seconds
/// unchanged.
pub proof fn lemma_shown_is_exact(duration_ms: u64, elapsed_nanos: u128)
    requires
        duration_ms < 0x1_0000_0000 * 1000,
    ensures
        shown_seconds(duration_ms, elapsed_nanos) == remaining_seconds(duration_ms, elapsed_nanos),
{
}

/// Within one tick the milliseconds left fall by one tick at most: what was
/// left at `sampled` is no less than what is left at `paused`, up to one
/// tick later, and more by one tick at most.
pub proof fn lemma_pause_keeps_remaining(duration_ms: u64, sampled: u128, paused: u128)
    requires
        sampled <= paused,
        paused - sampled <= TICK_NANOS,
    ensures
        remaining_millis(duration_ms, paused) <= remaining_millis(duration_ms, sampled),
        remaining_millis(duration_ms, sampled) <= remaining_millis(duration_ms, paused)
            + TICK_MILLIS,
{
}

} // verus!
