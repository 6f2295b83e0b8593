//! How long to wait before the next request to a provider.

use vstd::prelude::*;
use crate::staleness::{decimal_i64, parse_integer};
use crate::text::{same_text, to_uppercase, uppercased};

verus! {

/// The wait that a provider asks for, in milliseconds: a fixed time, or a
/// time drawn anew for every request from `min_millis` up to, and not
/// including, `max_millis`.
#[derive(Clone, Copy, Debug, PartialEq, Eq, Structural)]
pub enum RateLimitPolicy {
    Fixed { millis: u64 },
    Jitter { min_millis: u64, max_millis: u64 },
}

impl RateLimitPolicy {
    /// Whether the policy allows a wait of `millis`.
    pub open spec fn admits(self, millis: u64) -> bool {
        match self {
            RateLimitPolicy::Fixed { millis: fixed } => millis == fixed,
            RateLimitPolicy::Jitter { min_millis, max_millis } => min_millis <= millis
                < max_millis,
        }
    }

    /// Whether some wait is allowed: a jitter range must not be empty.
    pub open spec fn wf(self) -> bool {
        match self {
            RateLimitPolicy::Fixed { .. } => true,
            RateLimitPolicy::Jitter { min_millis, max_millis } => min_millis < max_millis,
        }
    }
}

/// The policy for a provider whose name is given in upper case. The
/// statistics provider and the market-data provider get a jittered wait;
/// the exchanges and every provider that is not known get the short default.
pub open spec fn policy_of_key(key: Seq<char>) -> RateLimitPolicy {
    if key == "FRED"@ {
        RateLimitPolicy::Jitter { min_millis: 1500, max_millis: 3000 }
    } else if key == "TIINGO"@ {
        RateLimitPolicy::Jitter { min_millis: 1000, max_millis: 2000 }
    } else {
        RateLimitPolicy::Fixed { millis: 100 }
    }
}

/// `rand::Rng::gen_range` on the generator of `rand::thread_rng`, over the
/// half-open range from `min` to `max`. Trusted: the number drawn lies in
/// the range. Nothing is said of which number it is, and two calls may
/// differ. The outside function panics on an empty range, which `requires`
/// leaves out, and where the system gives the generator no seed; it draws by
/// rejection, so that it returns with probability one.
#[verifier::external_body]
fn draw_between(min: u64, max: u64) -> (r: u64)
    requires
        min < max,
    ensures
        min <= r < max,
{
    rand::Rng::gen_range(&mut rand::thread_rng(), min..max)
}

/// The per-provider wait policy. Every call stands alone: there is no
/// queue and no state between calls.
pub struct RateLimiter;

impl RateLimiter {
    /// The policy for a provider whose name is given in upper case.
    pub fn policy_for_key(key: &str) -> (policy: RateLimitPolicy)
        ensures
            policy == policy_of_key(key@),
            policy.wf(),
    {
        if same_text(key, "FRED") {
            RateLimitPolicy::Jitter { min_millis: 1500, max_millis: 3000 }
        } else if same_text(key, "TIINGO") {
            RateLimitPolicy::Jitter { min_millis: 1000, max_millis: 2000 }
        } else {
            RateLimitPolicy::Fixed { millis: 100 }
        }
    }

    /// The policy for a provider, whatever the case of its name.
    pub fn policy(source: &str) -> (policy: RateLimitPolicy)
        ensures
            policy == policy_of_key(uppercased(source@)),
            policy.wf(),
    {
        let key = to_uppercase(source);
        RateLimiter::policy_for_key(key.as_str())
    }

    /// A wait that the policy allows, in milliseconds. An empty jitter range
    /// allows none; its lower end is then given.
    pub fn draw(policy: RateLimitPolicy) -> (millis: u64)
        ensures
            policy.wf() ==> policy.admits(millis),
            !policy.wf() ==> (policy matches RateLimitPolicy::Jitter { min_millis, .. } && millis
                == min_millis),
    {
        match policy {
            RateLimitPolicy::Fixed { millis } => millis,
            RateLimitPolicy::Jitter { min_millis, max_millis } => {
                if min_millis < max_millis {
                    draw_between(min_millis, max_millis)
                } else {
                    min_millis
                }
            },
        }
    }

    /// How long to wait before the next request to the provider, in
    /// milliseconds.
    pub fn delay_millis(source: &str) -> (millis: u64)
        ensures
            policy_of_key(uppercased(source@)).admits(millis),
    {
        RateLimiter::draw(RateLimiter::policy(source))
    }
}


/// How many requests a stored usage counter stands for: its number, or
/// none where there is no counter or it cannot be read.
pub open spec fn usage_of(stored: Option<Seq<char>>) -> i64 {
    match stored {
        Some(text) => match decimal_i64(text) {
            Some(count) => count,
            None => 0,
        },
        None => 0,
    }
}

/// The characters of an optional text.
pub open spec fn stored_text(stored: Option<&str>) -> Option<Seq<char>> {
    match stored {
        Some(text) => Some(text@),
        None => None,
    }
}

/// How many requests a stored usage counter stands for.
pub fn usage_count(stored: Option<&str>) -> (count: i64)
    ensures
        count == usage_of(stored_text(stored)),
{
    match stored {
        Some(text) => match parse_integer(text) {
            Some(count) => count,
            None => 0,
        },
        None => 0,
    }
}

/// Whether another request is within the limit: there is no counter yet,
/// or its number is below the limit.
pub fn check_api_limit(stored: Option<&str>, limit: i64) -> (allowed: bool)
    ensures
        allowed == (stored is None || usage_of(stored_text(stored)) < limit),
{
    match stored {
        Some(_) => usage_count(stored) < limit,
        None => true,
    }
}

/// The number to store after one more request: one where there is no
/// counter yet, else one more than its number. The count stops at the
/// largest number of 64 bits.
pub fn next_usage_count(stored: Option<&str>) -> (count: i64)
    ensures
        count == (if stored is None {
            1
        } else if usage_of(stored_text(stored)) < i64::MAX {
            usage_of(stored_text(stored)) + 1
        } else {
            i64::MAX as int
        }),
{
    match stored {
        Some(_) => {
            let count = usage_count(stored);
            if count < i64::MAX {
                count + 1
            } else {
                count
            }
        },
        None => 1,
    }
}

} // verus!
