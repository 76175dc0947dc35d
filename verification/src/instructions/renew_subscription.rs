use vstd::prelude::*;
use crate::error::{payment_failure, CertificateError, PaymentError};
use crate::identity::Identity;
use crate::services::{Transfer, TransferSigner};
use crate::state::college::{CollegeAccount, CollegeAccountView};
use crate::state::protocol::MetaverfAccount;

verus! {

/// What a renewal works on: whoever pays, the ledger, the two token accounts
/// of the fee transfer, and the record of the college that is renewed.
#[derive(Clone, Debug, PartialEq, Eq)]
pub struct RenewSubscription {
    /// The identity that pays. Anyone may pay for any college.
    pub college_authority: Identity,
    pub metaverf_account: MetaverfAccount,
    /// The protocol's treasury.
    pub treasury: Identity,
    pub college_account: CollegeAccount,
    /// The token account that the fee is paid from.
    pub payer_token_account: Identity,
    /// The decimals of the fee currency.
    pub mint_decimals: u8,
}

/// What a renewal at `now` gives, and the college's record after it: paid at
/// `now` and active where the payment went through, else as before.
pub open spec fn renew_step(
    college: CollegeAccountView,
    now: i64,
    payment: Result<(), PaymentError>,
) -> (Result<(), CertificateError>, CollegeAccountView) {
    match payment {
        Err(e) => (Err(payment_failure(e)), college),
        Ok(_) => (Ok(()), college.renewed(now)),
    }
}

impl RenewSubscription {
    /// The transfer of one fee from the payer to the treasury, signed by the payer.
    pub open spec fn fee(&self) -> Transfer {
        Transfer {
            from: self.payer_token_account,
            to: self.treasury,
            signer: TransferSigner::Payer(self.college_authority),
            amount: self.metaverf_account.annual_fee,
            decimals: self.mint_decimals,
        }
    }

    /// Says which transfer to ask of the payment service: the fee, from the
    /// payer to the treasury.
    pub fn fee_transfer(&self) -> (t: Transfer)
        ensures
            t == self.fee(),
    {
        Transfer {
            from: self.payer_token_account,
            to: self.treasury,
            signer: TransferSigner::Payer(self.college_authority),
            amount: self.metaverf_account.annual_fee,
            decimals: self.mint_decimals,
        }
    }

    /// Renews the college's subscription at `now`, given the payment
    /// service's answer to the fee transfer. Where the payment failed nothing
    /// changes.
    pub fn renew_subscription(&mut self, now: i64, payment: Result<(), PaymentError>) -> (r: Result<
        (),
        CertificateError,
    >)
        ensures
            (r, final(self).college_account@) == renew_step(
                old(self).college_account@,
                now,
                payment,
            ),
            final(self).college_authority == old(self).college_authority,
            final(self).metaverf_account == old(self).metaverf_account,
            final(self).treasury == old(self).treasury,
            final(self).payer_token_account == old(self).payer_token_account,
            final(self).mint_decimals == old(self).mint_decimals,
            old(self).college_account@.wf() ==> final(self).college_account@.wf(),
    {
        match payment {
            Err(e) => Err(CertificateError::from_payment(e)),
            Ok(_) => {
                self.college_account.last_payment = now;
                self.college_account.active = true;
                Ok(())
            },
        }
    }
}

} // verus!
