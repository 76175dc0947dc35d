use vstd::prelude::*;
use crate::error::{payment_failure, CertificateError, PaymentError};
use crate::identity::Identity;
use crate::services::{Transfer, TransferSigner};
use crate::state::college::{CollegeAccount, CollegeAccountView};
use crate::state::protocol::MetaverfAccount;

verus! {

/// What a registration works on: the registering authority, who also pays,
/// the ledger, the two token accounts of the fee transfer, and the place of
/// the college's record, empty until the registration succeeds.
#[derive(Clone, Debug, PartialEq, Eq)]
pub struct RegisterCollege {
    /// The identity that registers. It pays the fee and becomes the college's
    /// authority and update authority.
    pub college_authority: Identity,
    pub metaverf_account: MetaverfAccount,
    /// The protocol's treasury.
    pub treasury: Identity,
    /// The record of the college: `None` before registration. A record that
    /// is already there means that the identifier is taken.
    pub college_account: Option<CollegeAccount>,
    /// The token account that the fee is paid from.
    pub payer_token_account: Identity,
    /// The decimals of the fee currency.
    pub mint_decimals: u8,
}

/// The id that the next college gets, or why none can register: the place of
/// its record is taken, or the counter is at its end.
pub open spec fn register_check(ledger: MetaverfAccount, taken: bool) -> Result<
    u16,
    CertificateError,
> {
    if taken {
        Err(CertificateError::DuplicateIdentifier)
    } else if ledger.uni_no == u16::MAX {
        Err(CertificateError::CounterOverflow)
    } else {
        Ok((ledger.uni_no + 1) as u16)
    }
}

/// What a registration gives, and the ledger after it. The counter goes up
/// by one exactly when the registration succeeds, and the new college's id is
/// the new count.
pub open spec fn register_step(
    ledger: MetaverfAccount,
    taken: bool,
    payment: Result<(), PaymentError>,
) -> (Result<u16, CertificateError>, MetaverfAccount) {
    match register_check(ledger, taken) {
        Err(e) => (Err(e), ledger),
        Ok(id) => match payment {
            Err(e) => (Err(payment_failure(e)), ledger),
            Ok(_) => (Ok(id), MetaverfAccount { uni_no: id, ..ledger }),
        },
    }
}

impl RegisterCollege {
    /// The transfer of one fee from the payer to the treasury, signed by the payer.
    pub open spec fn fee(&self) -> Transfer {
        Transfer {
            from: self.payer_token_account,
            to: self.treasury,
            signer: TransferSigner::Payer(self.college_authority),
            amount: self.metaverf_account.annual_fee,
            decimals: self.mint_decimals,
        }
    }

    fn check(&self) -> (r: Result<u16, CertificateError>)
        ensures
            r == register_check(self.metaverf_account, self.college_account is Some),
    {
        if self.college_account.is_some() {
            Err(CertificateError::DuplicateIdentifier)
        } else if self.metaverf_account.uni_no == u16::MAX {
            Err(CertificateError::CounterOverflow)
        } else {
            Ok(self.metaverf_account.uni_no + 1)
        }
    }

    /// Decides whether a college can register and, if so, says which transfer
    /// to ask of the payment service: the fee, from the payer to the treasury.
    pub fn fee_transfer(&self) -> (r: Result<Transfer, CertificateError>)
        ensures
            match register_check(self.metaverf_account, self.college_account is Some) {
                Err(e) => r == Err::<Transfer, CertificateError>(e),
                Ok(_) => r == Ok::<Transfer, CertificateError>(self.fee()),
            },
    {
        match self.check() {
            Err(e) => Err(e),
            Ok(_) => Ok(
                Transfer {
                    from: self.payer_token_account,
                    to: self.treasury,
                    signer: TransferSigner::Payer(self.college_authority),
                    amount: self.metaverf_account.annual_fee,
                    decimals: self.mint_decimals,
                },
            ),
        }
    }

    /// Registers the college at `now`, given the payment service's answer to
    /// the fee transfer, and returns its id. On success the counter goes up by
    /// one and the college's record is created: active, paid at `now`, without
    /// collections. On any error nothing changes.
    pub fn register_college(&mut self, now: i64, bump: u8, payment: Result<(), PaymentError>) -> (r:
        Result<u16, CertificateError>)
        ensures
            (r, final(self).metaverf_account) == register_step(
                old(self).metaverf_account,
                old(self).college_account is Some,
                payment,
            ),
            match r {
                Ok(id) => final(self).college_account is Some && final(self).college_account->Some_0@ == CollegeAccountView::registered(
                    id,
                    old(self).college_authority,
                    bump,
                    now,
                ),
                Err(_) => final(self).college_account == old(self).college_account,
            },
            final(self).college_authority == old(self).college_authority,
            final(self).treasury == old(self).treasury,
            final(self).payer_token_account == old(self).payer_token_account,
            final(self).mint_decimals == old(self).mint_decimals,
    {
        match self.check() {
            Err(e) => Err(e),
            Ok(id) => match payment {
                Err(e) => Err(CertificateError::from_payment(e)),
                Ok(_) => {
                    self.college_account = Some(
                        CollegeAccount::new(id, self.college_authority, bump, now),
                    );
                    self.metaverf_account.uni_no = id;
                    Ok(id)
                },
            },
        }
    }
}

} // verus!
