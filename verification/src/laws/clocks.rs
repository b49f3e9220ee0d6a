//! What the clock arithmetic gives, in plain numbers of nanoseconds and seconds.

use crate::messages::Timestamp;
use crate::time::{expiry_timestamp, plan_ttl, refresh_offset, seconds_since, TOKEN_GRACE};
use vstd::prelude::*;

verus! {

/// A plan lives until the point in Unix time that the server names, or for the fallback where it
/// names none, but never for less than ten seconds.
pub proof fn plans_live_until_the_servers_deadline(
    valid_until: Option<Timestamp>,
    fallback: u128,
    unix_now: u64,
    ttl: u128,
)
    requires
        call_ensures(plan_ttl, (valid_until, fallback, unix_now), ttl),
    ensures
        ttl >= 10_000_000_000,
        match valid_until {
            Some(at) => {
                let deadline = at.seconds * 1_000_000_000 + at.nanos;
                if deadline < unix_now + 10_000_000_000 {
                    ttl == 10_000_000_000
                } else {
                    unix_now + ttl == deadline
                }
            },
            None => ttl == if fallback < 10_000_000_000 {
                10_000_000_000
            } else {
                fallback
            },
        },
{
}

/// A plan that lives longer than five minutes is renewed a minute before it expires; another when
/// a fifth of its lifetime is left.
pub proof fn renewals_come_a_minute_or_a_fifth_early(ttl: u128, offset: u128)
    requires
        call_ensures(refresh_offset, (ttl,), offset),
    ensures
        ttl > 300_000_000_000 ==> offset == 60_000_000_000,
        ttl <= 300_000_000_000 ==> 5 * offset <= ttl < 5 * offset + 5,
{
}

/// Seconds are counted whole, from the base on, and not at all before it.
pub proof fn seconds_are_counted_whole(base: u64, now: u64, seconds: u64)
    requires
        call_ensures(seconds_since, (base, now), seconds),
    ensures
        now < base ==> seconds == 0,
        now >= base ==> seconds * 1_000_000_000 <= now - base < (seconds + 1) * 1_000_000_000,
{
}

/// An expiry on the monotonic clock is told in Unix time by how far it is off; one that is past is
/// told as now.
pub proof fn expiries_are_told_by_how_far_they_are_off(
    expires_at: u128,
    now: u64,
    unix_now: u64,
    at: Timestamp,
)
    requires
        call_ensures(expiry_timestamp, (expires_at, now, unix_now), at),
    ensures
        0 <= at.nanos < 1_000_000_000,
        at.seconds * 1_000_000_000 + at.nanos == if expires_at >= now {
            unix_now + expires_at - now
        } else {
            unix_now as int
        },
{
}

/// A replaced token still leads to its statement for ten seconds.
pub proof fn replaced_tokens_have_ten_seconds()
    ensures
        TOKEN_GRACE == 10_000_000_000,
{
}

} // verus!
