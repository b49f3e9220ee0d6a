//! Clock arithmetic: lifetimes of compiled plans, and when to renew them.
//!
//! Two clocks are read outside the library and handed in as plain numbers. `now` is
//! nanoseconds on a monotonic clock with an arbitrary zero; `unix_now` is nanoseconds
//! since the Unix epoch. Spans of time are nanoseconds too.

use crate::messages::Timestamp;
use vstd::prelude::*;

verus! {

/// Nanoseconds in a second.
pub const NANOS_PER_SECOND: u64 = 1_000_000_000;

/// How long a plan is taken to live when the server does not say: one hour.
pub const DEFAULT_TTL: u128 = 3_600_000_000_000;

/// No plan is taken to live shorter than this, so that a server that hands out
/// expired plans cannot drive the client into a tight loop: ten seconds.
pub const MIN_TTL: u128 = 10_000_000_000;

/// No plan lives longer than this: nothing in the range of a timestamp lies further off.
pub const MAX_TTL: u128 = 10_000_000_000_000_000_000_000_000_000;

/// Plans that live longer than this are renewed a fixed span before they expire.
pub const LONG_TTL: u128 = 300_000_000_000;

/// How long before its expiry a long-lived plan is renewed: one minute.
pub const LONG_TTL_OFFSET: u128 = 60_000_000_000;

/// How long a replaced token still resolves to its statement: ten seconds.
pub const TOKEN_GRACE: u64 = 10_000_000_000;

/// The point in time in nanoseconds since the Unix epoch.
pub open spec fn unix_nanos(at: Timestamp) -> int {
    at.seconds * NANOS_PER_SECOND + at.nanos
}

/// How long a plan lives from now on: until `valid_until`, a point in Unix time, or
/// for `fallback` where the server named none; never shorter than the minimum.
pub open spec fn ttl_of(valid_until: Option<Timestamp>, fallback: u128, unix_now: u64) -> int {
    let told = match valid_until {
        Some(at) => unix_nanos(at) - unix_now,
        None => fallback as int,
    };
    if told < MIN_TTL {
        MIN_TTL as int
    } else {
        told
    }
}

/// How long before its expiry a plan is renewed: a minute, or a fifth of the
/// lifetime of a short-lived plan.
pub open spec fn offset_of(ttl: u128) -> int {
    if ttl > LONG_TTL {
        LONG_TTL_OFFSET as int
    } else {
        (ttl / 5) as int
    }
}

/// Whole seconds from `base` to `now`; none where `now` lies before `base`.
pub open spec fn elapsed_seconds(base: u64, now: u64) -> int {
    if now >= base {
        (now - base) / (NANOS_PER_SECOND as int)
    } else {
        0
    }
}

/// `a - b`, or zero where that would be negative.
pub open spec fn minus_or_zero(a: int, b: int) -> int {
    if a >= b {
        a - b
    } else {
        0
    }
}

/// The lifetime of a plan that the server has just compiled.
pub fn plan_ttl(valid_until: Option<Timestamp>, fallback: u128, unix_now: u64) -> (ttl: u128)
    ensures
        ttl == ttl_of(valid_until, fallback, unix_now),
        ttl >= MIN_TTL,
        fallback <= MAX_TTL ==> ttl <= MAX_TTL,
{
    let told: u128 = match valid_until {
        Some(at) => {
            assert(-0x8000_0000_0000_0000 * 1_000_000_000 <= at.seconds * NANOS_PER_SECOND
                <= 0x8000_0000_0000_0000 * 1_000_000_000) by (nonlinear_arith)
                requires
                    NANOS_PER_SECOND == 1_000_000_000,
                    -0x8000_0000_0000_0000 <= at.seconds < 0x8000_0000_0000_0000,
            ;
            let until: i128 = at.seconds as i128 * NANOS_PER_SECOND as i128 + at.nanos as i128;
            let from: i128 = unix_now as i128;
            if until > from {
                (until - from) as u128
            } else {
                0
            }
        },
        None => fallback,
    };
    if told < MIN_TTL {
        MIN_TTL
    } else {
        told
    }
}

/// How long before its expiry a plan is renewed.
pub fn refresh_offset(ttl: u128) -> (offset: u128)
    ensures
        offset == offset_of(ttl),
        offset <= ttl,
        offset <= LONG_TTL_OFFSET,
{
    if ttl > LONG_TTL {
        LONG_TTL_OFFSET
    } else {
        ttl / 5
    }
}

/// Whole seconds from `base` to `now`.
pub fn seconds_since(base: u64, now: u64) -> (seconds: u64)
    ensures
        seconds == elapsed_seconds(base, now),
{
    if now >= base {
        (now - base) / NANOS_PER_SECOND
    } else {
        0
    }
}

/// The Unix time at which a plan expires, where its expiry is known on the
/// monotonic clock. A plan that has expired already expires now.
pub open spec fn expiry_in_unix_nanos(expires_at: u128, now: u64, unix_now: u64) -> int {
    unix_now + minus_or_zero(expires_at as int, now as int)
}

/// The Unix time at which a plan expires.
pub fn expiry_timestamp(expires_at: u128, now: u64, unix_now: u64) -> (at: Timestamp)
    requires
        expiry_in_unix_nanos(expires_at, now, unix_now) / (NANOS_PER_SECOND as int) <= i64::MAX,
    ensures
        unix_nanos(at) == expiry_in_unix_nanos(expires_at, now, unix_now),
        0 <= at.nanos < NANOS_PER_SECOND,
{
    let left: u128 = if expires_at >= now as u128 {
        expires_at - now as u128
    } else {
        0
    };
    proof {
        let whole = unix_now + left;
        assert(whole <= (i64::MAX + 1) * NANOS_PER_SECOND) by (nonlinear_arith)
            requires
                whole / 1_000_000_000 <= i64::MAX,
                NANOS_PER_SECOND == 1_000_000_000,
        ;
    }
    let total: u128 = unix_now as u128 + left;
    let seconds: u128 = total / NANOS_PER_SECOND as u128;
    let nanos: u128 = total % NANOS_PER_SECOND as u128;
    Timestamp { seconds: seconds as i64, nanos: nanos as i32 }
}

/// A plan is renewed before it expires and, where it lives for any time at all, not
/// at once: the offset is at most a fifth of the lifetime and at most a minute.
pub proof fn refresh_falls_inside_the_lifetime(ttl: u128)
    ensures
        0 <= offset_of(ttl),
        5 * offset_of(ttl) <= ttl,
        offset_of(ttl) <= LONG_TTL_OFFSET,
        ttl >= MIN_TTL ==> 0 < offset_of(ttl) < ttl,
{
}

/// A plan that the server compiled for a lifetime of less than the minimum is still
/// kept for the minimum, and a longer lifetime is kept as it is.
pub proof fn lifetime_floor(at: Timestamp, fallback: u128, unix_now: u64)
    ensures
        unix_nanos(at) - unix_now <= MIN_TTL ==> ttl_of(Some(at), fallback, unix_now) == MIN_TTL,
        unix_nanos(at) - unix_now >= MIN_TTL ==> unix_now + ttl_of(Some(at), fallback, unix_now)
            == unix_nanos(at),
{
}

} // verus!
