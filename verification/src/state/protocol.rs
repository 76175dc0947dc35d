use vstd::prelude::*;
use crate::identity::Identity;

verus! {

/// The protocol's one ledger record: who administers it, what a subscription
/// costs and how long it lasts, and how many colleges have registered.
#[derive(Clone, Copy, Debug, PartialEq, Eq)]
pub struct MetaverfAccount {
    /// The admin of the protocol. Fixed when the ledger is created.
    pub admin_key: Identity,
    /// The number of colleges registered so far. It never goes down, and the
    /// next college's id is one more than it.
    pub uni_no: u16,
    /// The fee charged for each subscription period.
    pub annual_fee: u64,
    /// The bump of the ledger record's derived address.
    pub verf_bump: u8,
    /// The length of a subscription period, in seconds.
    pub subscription_duration: i64,
}

impl MetaverfAccount {
    /// Whether `caller` is the protocol's admin.
    pub fn is_admin(&self, caller: &Identity) -> (r: bool)
        ensures
            r == (*caller == self.admin_key),
    {
        *caller == self.admin_key
    }
}

} // verus!
