//! The payment-status guard and the link-status evaluator.
//!
//! The guard blocks use of a checkout link once the payment has reached a
//! state where reusing a checkout UI is unsafe or meaningless. The evaluator
//! computes a link's lifecycle status from its expiry instant and the
//! current time; nothing of it is persisted.

use vstd::prelude::*;

use crate::errors::{ApiErrorResponse, ApiErrorV};
use crate::instant::Instant;
use crate::instant::current_time;

verus! {

/// The lifecycle status of a payment intent, as the store records it.
#[derive(Clone, Copy, Debug, PartialEq, Eq, Structural)]
pub enum IntentStatus {
    Succeeded,
    Failed,
    Cancelled,
    Processing,
    RequiresCustomerAction,
    RequiresMerchantAction,
    RequiresPaymentMethod,
    RequiresConfirmation,
    RequiresCapture,
    PartiallyCaptured,
}

/// Fails with a not-allowed error, carrying the description of the attempted
/// action, exactly when `intent_status` is one of `not_allowed_statuses`.
pub fn validate_payment_status_against_not_allowed_statuses(
    intent_status: IntentStatus,
    not_allowed_statuses: &Vec<IntentStatus>,
    action: &str,
) -> (r: Result<(), ApiErrorResponse>)
    ensures
        r matches Ok(()) <==> !not_allowed_statuses@.contains(intent_status),
        r matches Err(e) ==> e@ == (ApiErrorV::NotAllowed { action: action@ }),
{
    let mut i: usize = 0;
    while i < not_allowed_statuses.len()
        invariant
            0 <= i <= not_allowed_statuses@.len(),
            forall|j: int| 0 <= j < i ==> not_allowed_statuses@[j] != intent_status,
        decreases not_allowed_statuses@.len() - i,
    {
        if not_allowed_statuses[i] == intent_status {
            return Err(ApiErrorResponse::NotAllowed { action: String::from_str(action) });
        }
        i += 1;
    }
    Ok(())
}

/// The statuses in which initiating a hosted checkout link is disallowed.
/// This is a policy constant: the payment has already been cancelled,
/// completed, or is in flight, so a checkout UI must not be reused.
pub open spec fn is_link_initiation_disallowed(status: IntentStatus) -> bool {
    ||| status == IntentStatus::Cancelled
    ||| status == IntentStatus::Succeeded
    ||| status == IntentStatus::Processing
    ||| status == IntentStatus::RequiresCapture
    ||| status == IntentStatus::RequiresMerchantAction
}

/// The list of statuses that [`is_link_initiation_disallowed`] names, in the
/// form the guard consumes.
pub fn link_initiation_not_allowed_statuses() -> (r: Vec<IntentStatus>)
    ensures
        forall|s: IntentStatus| r@.contains(s) <==> is_link_initiation_disallowed(s),
{
    let r = vec![
        IntentStatus::Cancelled,
        IntentStatus::Succeeded,
        IntentStatus::Processing,
        IntentStatus::RequiresCapture,
        IntentStatus::RequiresMerchantAction,
    ];
    proof {
        assert forall|s: IntentStatus| r@.contains(s) <==> is_link_initiation_disallowed(s) by {
            if is_link_initiation_disallowed(s) {
                if s == IntentStatus::Cancelled {
                    assert(r@[0] == s);
                } else if s == IntentStatus::Succeeded {
                    assert(r@[1] == s);
                } else if s == IntentStatus::Processing {
                    assert(r@[2] == s);
                } else if s == IntentStatus::RequiresCapture {
                    assert(r@[3] == s);
                } else {
                    assert(r@[4] == s);
                }
            }
        }
    }
    r
}

/// The status of a link whose expiry is `expiry` when the clock reads `now`:
/// expired exactly when the current time lies strictly after the expiry, so
/// a link is still active at the very instant it expires.
pub open spec fn spec_link_status(expiry: Instant, now: Instant) -> Seq<char> {
    if now.nanos > expiry.nanos {
        "expired"@
    } else {
        "active"@
    }
}

/// Computes a link's lifecycle status from its expiry instant and the
/// current time `now`: `"expired"` iff `now` is strictly after `expiry`,
/// else `"active"` (a link is still active at the boundary `now == expiry`).
pub fn evaluate_link_status(expiry: Instant, now: Instant) -> (r: String)
    ensures
        r@ == spec_link_status(expiry, now),
        (r@ == "expired"@) <==> now.nanos > expiry.nanos,
{
    proof {
        reveal_strlit("expired");
        reveal_strlit("active");
    }
    if now.is_after(expiry) {
        String::from_str("expired")
    } else {
        String::from_str("active")
    }
}

/// Re-reads the clock and evaluates the link status against it. Every call
/// recomputes; whatever the clock read, the result is one of the two
/// lifecycle statuses.
pub fn check_payment_link_status(max_age: Instant) -> (r: String)
    ensures
        r@ == "active"@ || r@ == "expired"@,
{
    let curr_time = current_time();
    evaluate_link_status(max_age, curr_time)
}

} // verus!
