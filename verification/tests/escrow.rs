use metaverf::services::{Transfer, TransferSigner};
use metaverf::{CertificateError, Identity, MetaverfAccount, PaymentError, WithdrawFees};

fn id(n: u8) -> Identity {
    Identity::new([n; 32])
}

fn ledger() -> MetaverfAccount {
    MetaverfAccount {
        admin_key: id(9),
        uni_no: 3,
        annual_fee: 100,
        verf_bump: 252,
        subscription_duration: 1_000,
    }
}

fn withdrawal(caller: Identity) -> WithdrawFees {
    WithdrawFees {
        admin: caller,
        metaverf_account: ledger(),
        treasury: id(50),
        admin_token_account: id(51),
        mint_decimals: 6,
    }
}

/// A stand-in for the payment service: one treasury and what it holds.
struct Treasury {
    address: Identity,
    balance: u64,
}

impl Treasury {
    fn carry_out(&mut self, transfer: &Transfer) -> Result<(), PaymentError> {
        assert_eq!(transfer.from, self.address);
        if transfer.amount > self.balance {
            return Err(PaymentError::InsufficientFunds);
        }
        self.balance -= transfer.amount;
        Ok(())
    }
}

fn withdraw(ctx: &mut WithdrawFees, treasury: &mut Treasury, amount: u64) -> Result<(), CertificateError> {
    let transfer = ctx.withdrawal(amount)?;
    let paid = treasury.carry_out(&transfer);
    ctx.withdraw_fees(paid)
}

#[test]
fn admin_withdrawal_is_signed_by_the_ledger() {
    let ctx = withdrawal(id(9));
    let transfer = ctx.withdrawal(40).unwrap();
    assert_eq!(transfer.from, id(50));
    assert_eq!(transfer.to, id(51));
    assert_eq!(transfer.amount, 40);
    assert_eq!(transfer.decimals, 6);
    match transfer.signer {
        TransferSigner::Protocol(signer) => {
            assert_eq!(signer.seeds(), vec![b"protocol".to_vec(), vec![252]]);
        }
        TransferSigner::Payer(_) => panic!("a withdrawal is signed by the ledger"),
    }
}

#[test]
fn stranger_gets_no_transfer_to_sign() {
    let ctx = withdrawal(id(8));
    assert_eq!(ctx.withdrawal(40), Err(CertificateError::NotAuthorized));
    assert_eq!(ctx.withdrawal(0), Err(CertificateError::NotAuthorized));
}

#[test]
fn withdraw_by_non_admin_leaves_treasury_unchanged() {
    let mut treasury = Treasury { address: id(50), balance: 300 };
    let mut ctx = withdrawal(id(8));
    let before = ctx;
    assert_eq!(withdraw(&mut ctx, &mut treasury, 40), Err(CertificateError::NotAuthorized));
    assert_eq!(treasury.balance, 300);
    assert_eq!(ctx, before);
    assert_eq!(ctx.withdraw_fees(Ok(())), Err(CertificateError::NotAuthorized));
    assert_eq!(ctx.withdraw_fees(Err(PaymentError::Rejected)), Err(CertificateError::NotAuthorized));
}

#[test]
fn admin_withdraws_what_the_treasury_holds() {
    let mut treasury = Treasury { address: id(50), balance: 300 };
    let mut ctx = withdrawal(id(9));
    let before = ctx;
    assert_eq!(withdraw(&mut ctx, &mut treasury, 40), Ok(()));
    assert_eq!(treasury.balance, 260);
    assert_eq!(withdraw(&mut ctx, &mut treasury, 260), Ok(()));
    assert_eq!(treasury.balance, 0);
    assert_eq!(ctx, before);
}

#[test]
fn short_treasury_gives_insufficient_funds() {
    let mut treasury = Treasury { address: id(50), balance: 300 };
    let mut ctx = withdrawal(id(9));
    assert_eq!(withdraw(&mut ctx, &mut treasury, 301), Err(CertificateError::InsufficientFunds));
    assert_eq!(treasury.balance, 300);
    assert_eq!(ctx.withdraw_fees(Err(PaymentError::Rejected)), Err(CertificateError::PaymentFailed));
}
