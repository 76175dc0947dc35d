use metaverf::services::Transfer;
use metaverf::{
    AddCollection, AddCollectionArgs, CertificateError, CollegeAccount, Identity,
    InitializeProtocol, IssuanceError, MetaverfAccount, MintCertificate, PaymentError,
    RegisterCollege, RenewSubscription,
};

fn id(n: u8) -> Identity {
    Identity::new([n; 32])
}

const TREASURY: u8 = 50;
const PAYER_TOKENS: u8 = 60;

/// A stand-in for the payment service: the balances of the payer and of the treasury.
struct Bank {
    payer: u64,
    treasury: u64,
}

impl Bank {
    fn carry_out(&mut self, transfer: &Transfer) -> Result<(), PaymentError> {
        assert_eq!(transfer.from, id(PAYER_TOKENS));
        assert_eq!(transfer.to, id(TREASURY));
        if transfer.amount > self.payer {
            return Err(PaymentError::InsufficientFunds);
        }
        self.payer -= transfer.amount;
        self.treasury += transfer.amount;
        Ok(())
    }
}

/// A stand-in for the issuance service: the identifiers of what it has created.
struct Issuer {
    created: Vec<Identity>,
}

impl Issuer {
    fn create(&mut self, asset: Identity) -> Result<(), IssuanceError> {
        if self.created.contains(&asset) {
            return Err(IssuanceError::DuplicateIdentifier);
        }
        self.created.push(asset);
        Ok(())
    }
}

fn new_ledger(fee: u64, period: i64) -> MetaverfAccount {
    let mut ctx = InitializeProtocol { admin: id(9), metaverf_account: None };
    assert_eq!(ctx.initialize_protocol(fee, period, 255), Ok(()));
    ctx.metaverf_account.unwrap()
}

fn register(
    ledger: &mut MetaverfAccount,
    bank: &mut Bank,
    authority: Identity,
    now: i64,
) -> Result<CollegeAccount, CertificateError> {
    let mut ctx = RegisterCollege {
        college_authority: authority,
        metaverf_account: *ledger,
        treasury: id(TREASURY),
        college_account: None,
        payer_token_account: id(PAYER_TOKENS),
        mint_decimals: 6,
    };
    let transfer = ctx.fee_transfer()?;
    let paid = bank.carry_out(&transfer);
    let new_id = ctx.register_college(now, 254, paid)?;
    *ledger = ctx.metaverf_account;
    let college = ctx.college_account.unwrap();
    assert_eq!(college.id, new_id);
    Ok(college)
}

fn renew(
    ledger: &MetaverfAccount,
    bank: &mut Bank,
    college: &mut CollegeAccount,
    now: i64,
) -> Result<(), CertificateError> {
    let mut ctx = RenewSubscription {
        college_authority: college.authority,
        metaverf_account: *ledger,
        treasury: id(TREASURY),
        college_account: college.clone(),
        payer_token_account: id(PAYER_TOKENS),
        mint_decimals: 6,
    };
    let paid = bank.carry_out(&ctx.fee_transfer());
    let r = ctx.renew_subscription(now, paid);
    *college = ctx.college_account;
    r
}

fn add_collection(
    ledger: &MetaverfAccount,
    issuer: &mut Issuer,
    college: &mut CollegeAccount,
    caller: Identity,
    collection: Identity,
    now: i64,
) -> Result<(), CertificateError> {
    let mut ctx = AddCollection {
        college_authority: caller,
        metaverf_account: *ledger,
        college_account: college.clone(),
        new_collection: collection,
    };
    let args = AddCollectionArgs { name: "Degrees".to_string(), uri: "d".to_string() };
    assert!(args.in_bounds());
    let request = ctx.collection_request(&args, now)?;
    let issued = issuer.create(request.collection);
    let r = ctx.add_collection(args, now, issued);
    *college = ctx.college_account;
    r.map(|_| ())
}

fn mint(
    ledger: &MetaverfAccount,
    issuer: &mut Issuer,
    college: &CollegeAccount,
    caller: Identity,
    collection: Identity,
    asset: Identity,
    now: i64,
) -> Result<Identity, CertificateError> {
    let mut ctx = MintCertificate {
        college_authority: caller,
        metaverf_account: *ledger,
        college_account: college.clone(),
        collection,
        asset,
        student_wallet: id(80),
    };
    let args = metaverf::CertificateArgs {
        name: "BSc".to_string(),
        uri: "c".to_string(),
        student_name: "Ada".to_string(),
        course_name: "Mathematics".to_string(),
        completion_date: "2024-06-30".to_string(),
        grade: None,
    };
    let request = ctx.certificate_request(&args, now)?;
    assert!(request.frozen);
    let issued = issuer.create(request.asset);
    ctx.mint_certificate(now, issued)
}

#[test]
fn subscription_runs_out_and_is_renewed() {
    let mut ledger = new_ledger(100, 31_536_000);
    let mut bank = Bank { payer: 1_000, treasury: 0 };
    let mut issuer = Issuer { created: Vec::new() };
    let start: i64 = 1_700_000_000;

    let mut college = register(&mut ledger, &mut bank, id(1), start).unwrap();
    assert_eq!(college.id, 1);
    assert_eq!(ledger.uni_no, 1);
    assert_eq!(bank.treasury, 100);

    assert_eq!(add_collection(&ledger, &mut issuer, &mut college, id(1), id(100), start), Ok(()));
    assert_eq!(college.collections.len(), 1);

    let later = start + 31_536_001;
    assert_eq!(
        mint(&ledger, &mut issuer, &college, id(1), id(100), id(70), later),
        Err(CertificateError::CollegeNotActive)
    );
    assert!(college.active);
    assert_eq!(issuer.created, vec![id(100)]);

    assert_eq!(renew(&ledger, &mut bank, &mut college, later), Ok(()));
    assert_eq!(college.last_payment, later);
    assert_eq!(bank.treasury, 200);
    assert_eq!(mint(&ledger, &mut issuer, &college, id(1), id(100), id(70), later), Ok(id(70)));
    assert_eq!(issuer.created, vec![id(100), id(70)]);
}

#[test]
fn payer_without_funds_registers_nothing() {
    let mut ledger = new_ledger(100, 10);
    let mut bank = Bank { payer: 99, treasury: 0 };
    assert_eq!(
        register(&mut ledger, &mut bank, id(1), 0).err(),
        Some(CertificateError::InsufficientFunds)
    );
    assert_eq!(ledger.uni_no, 0);
    assert_eq!(bank.treasury, 0);
    bank.payer = 100;
    assert_eq!(register(&mut ledger, &mut bank, id(1), 0).map(|c| c.id), Ok(1));
    assert_eq!(ledger.uni_no, 1);
}

#[test]
fn unpaid_renewal_keeps_the_college_out() {
    let mut ledger = new_ledger(100, 10);
    let mut bank = Bank { payer: 100, treasury: 0 };
    let mut issuer = Issuer { created: Vec::new() };
    let mut college = register(&mut ledger, &mut bank, id(1), 0).unwrap();
    assert_eq!(add_collection(&ledger, &mut issuer, &mut college, id(1), id(100), 10), Ok(()));
    assert_eq!(renew(&ledger, &mut bank, &mut college, 11), Err(CertificateError::InsufficientFunds));
    assert_eq!(
        mint(&ledger, &mut issuer, &college, id(1), id(100), id(70), 11),
        Err(CertificateError::CollegeNotActive)
    );
}

#[test]
fn colleges_keep_their_collections_apart() {
    let mut ledger = new_ledger(100, 1_000);
    let mut bank = Bank { payer: 1_000, treasury: 0 };
    let mut issuer = Issuer { created: Vec::new() };
    let mut first = register(&mut ledger, &mut bank, id(1), 0).unwrap();
    let mut second = register(&mut ledger, &mut bank, id(2), 0).unwrap();
    assert_eq!((first.id, second.id), (1, 2));
    assert_eq!(add_collection(&ledger, &mut issuer, &mut first, id(1), id(100), 1), Ok(()));
    assert_eq!(add_collection(&ledger, &mut issuer, &mut second, id(2), id(101), 1), Ok(()));
    assert_eq!(
        mint(&ledger, &mut issuer, &second, id(2), id(100), id(70), 2),
        Err(CertificateError::CollectionNotFound)
    );
    assert_eq!(
        mint(&ledger, &mut issuer, &first, id(2), id(100), id(70), 2),
        Err(CertificateError::NotAuthorized)
    );
    assert_eq!(
        add_collection(&ledger, &mut issuer, &mut first, id(1), id(101), 2),
        Err(CertificateError::DuplicateIdentifier)
    );
    assert_eq!(first.collections.len(), 1);
    assert_eq!(mint(&ledger, &mut issuer, &first, id(1), id(100), id(70), 2), Ok(id(70)));
}
