//! Decisions of a monotonic deadline for one sampled instant.
//!
//! Instants are given by their elapsed time since their clock's origin and
//! by whether they share one clock domain: instants of different domains are
//! not ordered, so neither reaches the other.

use vstd::prelude::*;

use super::max_duration_nanos;
use super::Duration;

verus! {

/// The verdict of a deadline check at one sampled instant.
#[derive(Debug, Clone, Copy, PartialEq, Eq)]
pub enum DeadlineCheck {
    /// The deadline has not been reached, and the prospective operation, if
    /// any, ends strictly before it.
    Open,
    /// The sampled instant has already reached the deadline.
    Expired,
    /// The prospective operation would end at or after the deadline.
    WouldExpire,
    /// The prospective end instant cannot be represented.
    Overflow,
}

/// Whether the instant `now` has reached `deadline`.
pub open spec fn reached(now: Duration, deadline: Duration, same_domain: bool) -> bool {
    same_domain && deadline.as_nat() <= now.as_nat()
}

/// Within one clock domain a deadline is reached exactly when the sampled
/// instant is at or after it, compared to the nanosecond: any instant even
/// one nanosecond before the deadline leaves it open. Instants of different
/// clock domains never reach each other.
pub proof fn law_deadline_reached_at_full_precision(now: Duration, deadline: Duration)
    ensures
        now.as_nat() < deadline.as_nat() ==> !reached(now, deadline, true),
        deadline.as_nat() <= now.as_nat() ==> reached(now, deadline, true),
        !reached(now, deadline, false),
{
}

/// Reports whether the sampled instant `now` has reached `deadline`.
pub fn has_expired(now: Duration, deadline: Duration, same_domain: bool) -> (expired: bool)
    ensures
        expired == reached(now, deadline, same_domain),
{
    same_domain && deadline.le(&now)
}

/// Checks that the sampled instant `now` has not reached `deadline`.
pub fn check_deadline(now: Duration, deadline: Duration, same_domain: bool) -> (verdict:
    DeadlineCheck)
    ensures
        verdict == if reached(now, deadline, same_domain) {
            DeadlineCheck::Expired
        } else {
            DeadlineCheck::Open
        },
{
    if has_expired(now, deadline, same_domain) {
        DeadlineCheck::Expired
    } else {
        DeadlineCheck::Open
    }
}

/// Checks that an operation of length `requested`, started at the sampled
/// instant `now`, would end strictly before `deadline`.
pub fn check_deadline_after(
    now: Duration,
    deadline: Duration,
    same_domain: bool,
    requested: Duration,
) -> (verdict: DeadlineCheck)
    ensures
        verdict == if reached(now, deadline, same_domain) {
            DeadlineCheck::Expired
        } else if now.as_nat() + requested.as_nat() > max_duration_nanos() {
            DeadlineCheck::Overflow
        } else if same_domain && deadline.as_nat() <= now.as_nat() + requested.as_nat() {
            DeadlineCheck::WouldExpire
        } else {
            DeadlineCheck::Open
        },
{
    if has_expired(now, deadline, same_domain) {
        return DeadlineCheck::Expired;
    }
    let end = match now.checked_add(&requested) {
        Some(end) => end,
        None => return DeadlineCheck::Overflow,
    };
    if has_expired(end, deadline, same_domain) {
        DeadlineCheck::WouldExpire
    } else {
        DeadlineCheck::Open
    }
}

/// The time left before `deadline` at the sampled instant `now`: nothing
/// once it is reached, and otherwise the exact distance to it; `None` when
/// the instants belong to different clock domains.
pub fn remaining_before(now: Duration, deadline: Duration, same_domain: bool) -> (remaining:
    Option<Duration>)
    ensures
        match remaining {
            Some(left) => {
                &&& same_domain
                &&& left.as_nat() == if deadline.as_nat() <= now.as_nat() {
                    0
                } else {
                    deadline.as_nat() - now.as_nat()
                }
            },
            None => !same_domain,
        },
{
    if !same_domain {
        return None;
    }
    Some(deadline.saturating_sub(&now))
}

} // verus!
