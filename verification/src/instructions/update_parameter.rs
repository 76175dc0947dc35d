use vstd::prelude::*;
use crate::error::CertificateError;
use crate::identity::Identity;
use crate::instructions::withdraw_fees::{admin_check, require_admin};
use crate::state::protocol::MetaverfAccount;

verus! {

/// What a change of the fee schedule works on: the caller and the ledger.
#[derive(Clone, Copy, Debug, PartialEq, Eq)]
pub struct UpdateParameter {
    /// The caller.
    pub admin: Identity,
    pub metaverf_account: MetaverfAccount,
}

/// The ledger after a change of the fee schedule: each value that was given
/// replaces the old one, each that was left out stays.
pub open spec fn updated(
    ledger: MetaverfAccount,
    annual_fee: Option<u64>,
    subscription_duration: Option<i64>,
) -> MetaverfAccount {
    MetaverfAccount {
        annual_fee: match annual_fee {
            Some(fee) => fee,
            None => ledger.annual_fee,
        },
        subscription_duration: match subscription_duration {
            Some(duration) => duration,
            None => ledger.subscription_duration,
        },
        ..ledger
    }
}

impl UpdateParameter {
    /// Changes the fee, the subscription period, both or neither. Only the
    /// admin may: for any other caller nothing changes.
    pub fn update_parameters(
        &mut self,
        annual_fee: Option<u64>,
        subscription_duration: Option<i64>,
    ) -> (r: Result<(), CertificateError>)
        ensures
            r == admin_check(old(self).admin, old(self).metaverf_account),
            final(self).admin == old(self).admin,
            final(self).metaverf_account == (if r is Ok {
                updated(old(self).metaverf_account, annual_fee, subscription_duration)
            } else {
                old(self).metaverf_account
            }),
    {
        match require_admin(&self.admin, &self.metaverf_account) {
            Err(e) => Err(e),
            Ok(_) => {
                if let Some(fee) = annual_fee {
                    self.metaverf_account.annual_fee = fee;
                }
                if let Some(duration) = subscription_duration {
                    self.metaverf_account.subscription_duration = duration;
                }
                Ok(())
            },
        }
    }
}

} // verus!
