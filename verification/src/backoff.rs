//! Reconnect backoff: how long the agent waits before it dials the Leddy API
//! again after a session ended. All durations are in milliseconds.

use vstd::prelude::*;

verus! {

/// Shortest wait before reconnecting.
pub const MIN_RECONNECT_BACKOFF_MS: u64 = 250;
/// Longest wait before reconnecting.
pub const MAX_RECONNECT_BACKOFF_MS: u64 = 30_000;
/// A session that lasted at least this long counts as healthy and resets the
/// backoff.
pub const HEALTHY_SESSION_MS: u64 = 10_000;

/// The smaller of two integers.
pub open spec fn min_int(a: int, b: int) -> int {
    if a <= b {
        a
    } else {
        b
    }
}

/// The wait that follows `current`: twice as long, capped at the maximum.
pub open spec fn spec_next_backoff(current: int) -> int {
    min_int(2 * current, MAX_RECONNECT_BACKOFF_MS as int)
}

/// The wait after a session that lasted `session_ms`, when the previous wait
/// was `current`.
pub open spec fn spec_backoff_after_session(current: int, session_ms: int) -> int {
    if session_ms >= HEALTHY_SESSION_MS {
        MIN_RECONNECT_BACKOFF_MS as int
    } else {
        spec_next_backoff(current)
    }
}

/// Doubles `current`, saturating, and caps the result at
/// `MAX_RECONNECT_BACKOFF_MS`.
pub fn next_backoff(current: u64) -> (next: u64)
    ensures
        next == spec_next_backoff(current as int),
        next <= MAX_RECONNECT_BACKOFF_MS,
        2 * current <= MAX_RECONNECT_BACKOFF_MS ==> next == 2 * current,
        2 * current >= MAX_RECONNECT_BACKOFF_MS ==> next == MAX_RECONNECT_BACKOFF_MS,
{
    let doubled = if current > u64::MAX / 2 {
        u64::MAX
    } else {
        current * 2
    };
    if doubled < MAX_RECONNECT_BACKOFF_MS {
        doubled
    } else {
        MAX_RECONNECT_BACKOFF_MS
    }
}

/// The wait before the next connection attempt: back to the minimum after a
/// healthy session, otherwise the next step of the doubling backoff.
pub fn backoff_after_session(current: u64, session_ms: u64) -> (next: u64)
    ensures
        next == spec_backoff_after_session(current as int, session_ms as int),
        session_ms >= HEALTHY_SESSION_MS ==> next == MIN_RECONNECT_BACKOFF_MS,
        session_ms < HEALTHY_SESSION_MS && 2 * current <= MAX_RECONNECT_BACKOFF_MS ==> next == 2
            * current,
        session_ms < HEALTHY_SESSION_MS && 2 * current >= MAX_RECONNECT_BACKOFF_MS ==> next
            == MAX_RECONNECT_BACKOFF_MS,
{
    if session_ms >= HEALTHY_SESSION_MS {
        MIN_RECONNECT_BACKOFF_MS
    } else {
        next_backoff(current)
    }
}

/// `2` to the power `k`.
pub open spec fn doubling(k: nat) -> nat
    decreases k,
{
    if k == 0 {
        1
    } else {
        2 * doubling((k - 1) as nat)
    }
}

/// The wait after `k` short sessions in a row, starting from the minimum.
pub open spec fn backoff_after_failures(k: nat) -> int
    decreases k,
{
    if k == 0 {
        MIN_RECONNECT_BACKOFF_MS as int
    } else {
        spec_next_backoff(backoff_after_failures((k - 1) as nat))
    }
}

/// Once at least the minimum, the wait stays between the minimum and the
/// maximum, and it never shrinks until it reaches the maximum.
pub proof fn lemma_backoff_bounded(current: int, session_ms: int)
    requires
        MIN_RECONNECT_BACKOFF_MS <= current <= MAX_RECONNECT_BACKOFF_MS,
    ensures
        MIN_RECONNECT_BACKOFF_MS <= spec_backoff_after_session(current, session_ms)
            <= MAX_RECONNECT_BACKOFF_MS,
        current <= spec_next_backoff(current),
        spec_next_backoff(current) == MAX_RECONNECT_BACKOFF_MS
            || spec_next_backoff(current) == 2 * current,
{
}

/// After `k` short sessions in a row the wait is `250 * 2^k` milliseconds,
/// capped at 30 seconds.
pub proof fn lemma_backoff_doubles_to_cap(k: nat)
    ensures
        backoff_after_failures(k) == min_int(
            MIN_RECONNECT_BACKOFF_MS * doubling(k),
            MAX_RECONNECT_BACKOFF_MS as int,
        ),
    decreases k,
{
    if k > 0 {
        lemma_backoff_doubles_to_cap((k - 1) as nat);
        assert(doubling(k) == 2 * doubling((k - 1) as nat));
    }
}

/// Every session that lasted at least `HEALTHY_SESSION_MS`, however long,
/// resets the wait to the minimum; a shorter one doubles the wait up to the
/// maximum.
pub proof fn lemma_healthy_session_resets(current: int, session_ms: int)
    ensures
        session_ms >= HEALTHY_SESSION_MS ==> spec_backoff_after_session(current, session_ms)
            == MIN_RECONNECT_BACKOFF_MS,
        session_ms < HEALTHY_SESSION_MS && 2 * current <= MAX_RECONNECT_BACKOFF_MS
            ==> spec_backoff_after_session(current, session_ms) == 2 * current,
        session_ms < HEALTHY_SESSION_MS && 2 * current >= MAX_RECONNECT_BACKOFF_MS
            ==> spec_backoff_after_session(current, session_ms) == MAX_RECONNECT_BACKOFF_MS,
{
}

} // verus!
