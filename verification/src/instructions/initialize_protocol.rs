use vstd::prelude::*;
use crate::error::CertificateError;
use crate::identity::Identity;
use crate::state::protocol::MetaverfAccount;

verus! {

/// What the creation of the ledger works on: the admin and the place of the
/// ledger record, empty until it is created.
#[derive(Clone, Copy, Debug, PartialEq, Eq)]
pub struct InitializeProtocol {
    /// The caller, who becomes the protocol's admin.
    pub admin: Identity,
    /// The ledger: `None` before it is created. There is only ever one.
    pub metaverf_account: Option<MetaverfAccount>,
}

/// The ledger as it is created: no college yet.
pub open spec fn fresh_ledger(
    admin: Identity,
    annual_fee: u64,
    subscription_duration: i64,
    bump: u8,
) -> MetaverfAccount {
    MetaverfAccount {
        admin_key: admin,
        uni_no: 0,
        annual_fee,
        verf_bump: bump,
        subscription_duration,
    }
}

impl InitializeProtocol {
    /// Creates the ledger with the caller as its admin. A ledger that is
    /// already there is left as it is, and the call fails.
    pub fn initialize_protocol(&mut self, annual_fee: u64, subscription_duration: i64, bump: u8) -> (r:
        Result<(), CertificateError>)
        ensures
            final(self).admin == old(self).admin,
            match old(self).metaverf_account {
                Some(_) => r == Err::<(), CertificateError>(CertificateError::DuplicateIdentifier)
                    && final(self).metaverf_account == old(self).metaverf_account,
                None => r == Ok::<(), CertificateError>(()) && final(self).metaverf_account
                    == Some(fresh_ledger(old(self).admin, annual_fee, subscription_duration, bump)),
            },
    {
        if self.metaverf_account.is_some() {
            Err(CertificateError::DuplicateIdentifier)
        } else {
            self.metaverf_account = Some(
                MetaverfAccount {
                    admin_key: self.admin,
                    uni_no: 0,
                    annual_fee,
                    verf_bump: bump,
                    subscription_duration,
                },
            );
            Ok(())
        }
    }
}

} // verus!
