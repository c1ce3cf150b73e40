//! Wall-clock absolute-expiry verdicts that tolerate clock jumps.
//!
//! Credentials and tokens carry absolute Unix-second deadlines chosen by a
//! remote issuer. A local clock set backwards inflates the apparent remaining
//! lifetime without bound; since every issuance domain has a maximum TTL, a
//! remaining lifetime above it cannot come from a well-formed issuance, and
//! such a deadline is conservatively treated as expired so the artifact is
//! re-issued through its normal path. Deadlines within the plausible window
//! are judged exactly as a naive comparison would.
use vstd::prelude::*;

verus! {

/// Upper bound on the plausible remaining lifetime of an issued access
/// credential (one day).
pub const MAX_CREDENTIAL_REMAINING_SECS: i64 = 86_400;

/// Upper bound on the plausible remaining lifetime of a renewal token (seven
/// days).
pub const MAX_RENEWAL_TOKEN_REMAINING_SECS: i64 = 604_800;

/// `expires_at - now`, saturated to the `i64` range.
pub open spec fn saturating_remaining(expires_at_secs: i64, now_secs: i64) -> i64 {
    let d = expires_at_secs - now_secs;
    if d > i64::MAX {
        i64::MAX
    } else if d < i64::MIN {
        i64::MIN
    } else {
        d as i64
    }
}

/// The deadline is due (`expires_at <= now`), or its remaining lifetime
/// exceeds the plausible maximum of its domain.
pub open spec fn expired_or_implausible_spec(expires_at_secs: i64, now_secs: i64, max_remaining_secs: i64) -> bool {
    let remaining = saturating_remaining(expires_at_secs, now_secs);
    remaining <= 0 || remaining > max_remaining_secs
}

fn saturating_sub_i64(a: i64, b: i64) -> (r: i64)
    ensures
        r == saturating_remaining(a, b),
{
    match a.checked_sub(b) {
        Some(d) => d,
        None => {
            if b < 0 {
                i64::MAX
            } else {
                i64::MIN
            }
        },
    }
}

/// Whether the absolute deadline `expires_at_secs` must be treated as expired
/// at `now_secs` (both Unix seconds): it is due, or it lies implausibly far
/// ahead for its issuance domain. `what` names the artifact for diagnostics.
pub fn expired_or_implausibly_far(
    expires_at_secs: i64,
    now_secs: i64,
    max_remaining_secs: i64,
    what: &str,
) -> (b: bool)
    ensures
        b == expired_or_implausible_spec(expires_at_secs, now_secs, max_remaining_secs),
{
    let remaining = saturating_sub_i64(expires_at_secs, now_secs);
    if remaining <= 0 {
        return true;
    }
    if remaining > max_remaining_secs {
        return true;
    }
    false
}

/// Under a correct clock (a deadline within the plausible window) the verdict
/// is the naive comparison; a deadline that is due is always expired.
pub proof fn lemma_plausible_deadlines_are_naive(expires_at_secs: i64, now_secs: i64, max_remaining_secs: i64)
    ensures
        expires_at_secs <= now_secs ==> expired_or_implausible_spec(
            expires_at_secs,
            now_secs,
            max_remaining_secs,
        ),
        now_secs < expires_at_secs && expires_at_secs - now_secs <= max_remaining_secs
            ==> !expired_or_implausible_spec(expires_at_secs, now_secs, max_remaining_secs),
{
}

} // verus!
