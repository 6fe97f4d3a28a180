//! Reconnect backoff policy: an exponential delay that starts at a small base
//! unit, doubles per consecutive failure, and is capped at a maximum, with the
//! level reset to zero once a connection stabilizes.

use vstd::prelude::*;

verus! {

/// Delay, in abstract time units, of a shard's first reconnect attempt.
pub const BACKOFF_BASE_DELAY: u64 = 1;

/// Highest backoff level a shard can reach; the delay stops doubling here.
pub const MAX_BACKOFF_LEVEL: u32 = 6;

/// Largest delay the policy ever asks for: the base delay doubled
/// `MAX_BACKOFF_LEVEL` times.
pub const MAX_BACKOFF_DELAY: u64 = 64;

/// The delay after `level` doublings of the base delay, with no cap applied.
pub open spec fn spec_uncapped_delay(level: nat) -> nat
    decreases level,
{
    if level == 0 {
        BACKOFF_BASE_DELAY as nat
    } else {
        2 * spec_uncapped_delay((level - 1) as nat)
    }
}

/// The backoff level actually used for a nominal level: capped at
/// `MAX_BACKOFF_LEVEL`.
pub open spec fn spec_capped_level(level: u32) -> nat {
    if level > MAX_BACKOFF_LEVEL {
        MAX_BACKOFF_LEVEL as nat
    } else {
        level as nat
    }
}

/// The delay a shard waits before its next connection attempt when it has
/// seen `level` consecutive failures.
pub open spec fn spec_backoff_delay(level: u32) -> nat {
    spec_uncapped_delay(spec_capped_level(level))
}

/// The next backoff level after one more consecutive failure.
pub open spec fn spec_next_level(level: u32) -> u32 {
    if level < MAX_BACKOFF_LEVEL {
        (level + 1) as u32
    } else {
        MAX_BACKOFF_LEVEL
    }
}

proof fn lemma_uncapped_delay_monotone(a: nat, b: nat)
    requires
        a <= b,
    ensures
        spec_uncapped_delay(a) <= spec_uncapped_delay(b),
    decreases b,
{
    if a < b {
        lemma_uncapped_delay_monotone(a, (b - 1) as nat);
        assert(spec_uncapped_delay(b) == 2 * spec_uncapped_delay((b - 1) as nat));
    }
}

proof fn lemma_uncapped_delay_at_max()
    ensures
        spec_uncapped_delay(MAX_BACKOFF_LEVEL as nat) == MAX_BACKOFF_DELAY,
{
    reveal_with_fuel(spec_uncapped_delay, 8);
}

/// Law: the backoff delay never decreases as the failure level grows.
pub proof fn lemma_backoff_delay_nondecreasing(l1: u32, l2: u32)
    requires
        l1 <= l2,
    ensures
        spec_backoff_delay(l1) <= spec_backoff_delay(l2),
{
    lemma_uncapped_delay_monotone(spec_capped_level(l1), spec_capped_level(l2));
}

/// Law: the backoff delay is capped: it never exceeds `MAX_BACKOFF_DELAY`,
/// and every level at or past `MAX_BACKOFF_LEVEL` yields exactly that cap.
pub proof fn lemma_backoff_delay_capped(level: u32)
    ensures
        spec_backoff_delay(level) <= MAX_BACKOFF_DELAY,
        level >= MAX_BACKOFF_LEVEL ==> spec_backoff_delay(level) == MAX_BACKOFF_DELAY,
{
    lemma_uncapped_delay_at_max();
    lemma_uncapped_delay_monotone(spec_capped_level(level), MAX_BACKOFF_LEVEL as nat);
}

/// Law: a fresh or freshly-stabilized shard (level zero) waits exactly the
/// base delay.
pub proof fn lemma_backoff_delay_at_base()
    ensures
        spec_backoff_delay(0) == BACKOFF_BASE_DELAY,
{
}

/// Computes the delay, in abstract time units, before the next connection
/// attempt for a shard at the given consecutive-failure level.
pub fn backoff_delay(level: u32) -> (d: u64)
    ensures
        d == spec_backoff_delay(level),
{
    let capped: u32 = if level > MAX_BACKOFF_LEVEL {
        MAX_BACKOFF_LEVEL
    } else {
        level
    };
    let mut d: u64 = BACKOFF_BASE_DELAY;
    let mut i: u32 = 0;
    while i < capped
        invariant
            i <= capped,
            capped <= MAX_BACKOFF_LEVEL,
            d == spec_uncapped_delay(i as nat),
        decreases capped - i,
    {
        proof {
            lemma_uncapped_delay_monotone((i + 1) as nat, MAX_BACKOFF_LEVEL as nat);
            lemma_uncapped_delay_at_max();
        }
        d = d * 2;
        i = i + 1;
    }
    d
}

} // verus!
