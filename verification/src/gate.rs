use vstd::prelude::*;
use crate::error::CertificateError;
use crate::identity::Identity;
use crate::state::college::{CollegeAccount, CollegeAccountView};

verus! {

/// Whether a subscription paid for at `last_payment` has run out at `now`:
/// more than one period has gone by. The sum is taken in the integers, so no
/// pair of timestamps wraps round.
pub open spec fn expired(last_payment: i64, subscription_duration: i64, now: i64) -> bool {
    now as int > last_payment as int + subscription_duration as int
}

/// Whether the college counts as active at `now`: its flag is set and its
/// subscription has not run out. The stored flag alone never suffices.
pub open spec fn active_at(college: CollegeAccountView, subscription_duration: i64, now: i64) -> bool {
    college.active && !expired(college.last_payment, subscription_duration, now)
}

/// Whether `caller` may act for the college.
pub open spec fn authorized(caller: Identity, college: CollegeAccountView) -> bool {
    caller == college.authority
}

/// The check that every operation on a college's record passes first: the
/// caller's authority is checked before the subscription.
pub open spec fn gate_decision(
    caller: Identity,
    college: CollegeAccountView,
    subscription_duration: i64,
    now: i64,
) -> Result<(), CertificateError> {
    if !authorized(caller, college) {
        Err(CertificateError::NotAuthorized)
    } else if !active_at(college, subscription_duration, now) {
        Err(CertificateError::CollegeNotActive)
    } else {
        Ok(())
    }
}

/// Decides whether the college is active at `now`.
pub fn is_active(college: &CollegeAccount, subscription_duration: i64, now: i64) -> (r: bool)
    ensures
        r == active_at(college@, subscription_duration, now),
{
    let paid_until: i128 = college.last_payment as i128 + subscription_duration as i128;
    college.active && now as i128 <= paid_until
}

/// Succeeds exactly when `caller` is the college's authority.
pub fn authorize(caller: &Identity, college: &CollegeAccount) -> (r: Result<(), CertificateError>)
    ensures
        r == (if authorized(*caller, college@) {
            Ok::<(), CertificateError>(())
        } else {
            Err(CertificateError::NotAuthorized)
        }),
{
    if *caller == college.authority {
        Ok(())
    } else {
        Err(CertificateError::NotAuthorized)
    }
}

/// Both checks in one: authority first, then the subscription.
pub fn gate(
    caller: &Identity,
    college: &CollegeAccount,
    subscription_duration: i64,
    now: i64,
) -> (r: Result<(), CertificateError>)
    ensures
        r == gate_decision(*caller, college@, subscription_duration, now),
{
    match authorize(caller, college) {
        Err(e) => Err(e),
        Ok(()) => {
            if is_active(college, subscription_duration, now) {
                Ok(())
            } else {
                Err(CertificateError::CollegeNotActive)
            }
        },
    }
}

} // verus!
