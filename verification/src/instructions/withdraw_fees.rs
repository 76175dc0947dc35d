use vstd::prelude::*;
use crate::error::{payment_failure, CertificateError, PaymentError};
use crate::identity::Identity;
use crate::services::{LedgerSigner, Transfer, TransferSigner};
use crate::state::protocol::MetaverfAccount;

verus! {

/// What a withdrawal works on: the caller, the ledger, the treasury and the
/// token account that receives.
#[derive(Clone, Copy, Debug, PartialEq, Eq)]
pub struct WithdrawFees {
    /// The caller.
    pub admin: Identity,
    pub metaverf_account: MetaverfAccount,
    /// The protocol's treasury.
    pub treasury: Identity,
    /// The token account that the amount goes to.
    pub admin_token_account: Identity,
    /// The decimals of the fee currency.
    pub mint_decimals: u8,
}

/// Whether `caller` may do what only the protocol's admin may.
pub open spec fn admin_check(caller: Identity, ledger: MetaverfAccount) -> Result<
    (),
    CertificateError,
> {
    if caller == ledger.admin_key {
        Ok(())
    } else {
        Err(CertificateError::NotAuthorized)
    }
}

/// What a withdrawal gives: it succeeds where the caller is the admin and
/// the payment went through.
pub open spec fn withdraw_step(
    caller: Identity,
    ledger: MetaverfAccount,
    payment: Result<(), PaymentError>,
) -> Result<(), CertificateError> {
    match admin_check(caller, ledger) {
        Err(e) => Err(e),
        Ok(_) => match payment {
            Err(e) => Err(payment_failure(e)),
            Ok(_) => Ok(()),
        },
    }
}

/// Succeeds exactly when `caller` is the admin of `ledger`.
pub fn require_admin(caller: &Identity, ledger: &MetaverfAccount) -> (r: Result<
    (),
    CertificateError,
>)
    ensures
        r == admin_check(*caller, *ledger),
{
    if ledger.is_admin(caller) {
        Ok(())
    } else {
        Err(CertificateError::NotAuthorized)
    }
}

impl WithdrawFees {
    /// Whether `transfer` moves `amount` from the treasury to the admin's
    /// token account, signed by the ledger record itself.
    pub open spec fn is_payout(&self, transfer: Transfer, amount: u64) -> bool {
        &&& transfer.from == self.treasury
        &&& transfer.to == self.admin_token_account
        &&& transfer.signer matches TransferSigner::Protocol(ledger)
        &&& ledger.bump() == self.metaverf_account.verf_bump
        &&& transfer.amount == amount
        &&& transfer.decimals == self.mint_decimals
    }

    /// Decides whether the caller may withdraw and, if so, says which
    /// transfer to ask of the payment service. No transfer is asked for a
    /// caller who is not the admin.
    pub fn withdrawal(&self, amount: u64) -> (r: Result<Transfer, CertificateError>)
        ensures
            match admin_check(self.admin, self.metaverf_account) {
                Err(e) => r == Err::<Transfer, CertificateError>(e),
                Ok(_) => r is Ok && self.is_payout(r->Ok_0, amount),
            },
    {
        match require_admin(&self.admin, &self.metaverf_account) {
            Err(e) => Err(e),
            Ok(_) => Ok(
                Transfer {
                    from: self.treasury,
                    to: self.admin_token_account,
                    signer: TransferSigner::Protocol(LedgerSigner::for_ledger(&self.metaverf_account)),
                    amount,
                    decimals: self.mint_decimals,
                },
            ),
        }
    }

    /// Settles a withdrawal, given the payment service's answer to the
    /// transfer. Nothing that the library keeps changes.
    pub fn withdraw_fees(&mut self, payment: Result<(), PaymentError>) -> (r: Result<
        (),
        CertificateError,
    >)
        ensures
            r == withdraw_step(old(self).admin, old(self).metaverf_account, payment),
            *final(self) == *old(self),
    {
        match require_admin(&self.admin, &self.metaverf_account) {
            Err(e) => Err(e),
            Ok(_) => match payment {
                Err(e) => Err(CertificateError::from_payment(e)),
                Ok(_) => Ok(()),
            },
        }
    }
}

} // verus!
