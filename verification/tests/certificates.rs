use metaverf::attributes::{
    build_certificate_attributes, build_collection_attributes, decimal_text, Attribute,
};
use metaverf::services::CertificateRequest;
use metaverf::{
    AddCollection, AddCollectionArgs, CertificateArgs, CertificateError, CollegeAccount, Identity,
    IssuanceError, MetaverfAccount, MintCertificate,
};

fn id(n: u8) -> Identity {
    Identity::new([n; 32])
}

fn ledger() -> MetaverfAccount {
    MetaverfAccount {
        admin_key: id(9),
        uni_no: 1,
        annual_fee: 100,
        verf_bump: 255,
        subscription_duration: 1_000,
    }
}

fn college_with_collection(collection: Identity) -> CollegeAccount {
    let mut ctx = AddCollection {
        college_authority: id(1),
        metaverf_account: ledger(),
        college_account: CollegeAccount::new(7, id(1), 255, 0),
        new_collection: collection,
    };
    let args = AddCollectionArgs { name: "Degrees".to_string(), uri: "d".to_string() };
    assert!(ctx.add_collection(args, 0, Ok(())).is_ok());
    ctx.college_account
}

fn mint(caller: Identity, college: CollegeAccount, collection: Identity) -> MintCertificate {
    MintCertificate {
        college_authority: caller,
        metaverf_account: ledger(),
        college_account: college,
        collection,
        asset: id(70),
        student_wallet: id(80),
    }
}

fn certificate(grade: Option<&str>) -> CertificateArgs {
    CertificateArgs {
        name: "BSc".to_string(),
        uri: "https://example.org/c".to_string(),
        student_name: "Ada".to_string(),
        course_name: "Mathematics".to_string(),
        completion_date: "2024-06-30".to_string(),
        grade: grade.map(|g| g.to_string()),
    }
}

fn attribute(key: &str, value: &str) -> Attribute {
    Attribute { key: key.to_string(), value: value.to_string() }
}

#[test]
fn decimal_text_writes_base_ten() {
    assert_eq!(decimal_text(0), "0");
    assert_eq!(decimal_text(7), "7");
    assert_eq!(decimal_text(10), "10");
    assert_eq!(decimal_text(109), "109");
    assert_eq!(decimal_text(12_345), "12345");
    assert_eq!(decimal_text(u16::MAX), "65535");
}

#[test]
fn decimal_text_agrees_with_std_everywhere() {
    for n in 0..=u16::MAX {
        assert_eq!(decimal_text(n), n.to_string());
    }
}

#[test]
fn collection_attributes_are_id_and_type() {
    assert_eq!(
        build_collection_attributes(65_535),
        vec![
            attribute("Tenant ID", "65535"),
            attribute("Collection Type", "Academic Certificate"),
        ]
    );
}

#[test]
fn certificate_attributes_without_grade() {
    let a = certificate(None);
    assert_eq!(
        build_certificate_attributes(
            7,
            &a.student_name,
            &a.course_name,
            &a.completion_date,
            &a.grade
        ),
        vec![
            attribute("Student Name", "Ada"),
            attribute("Course", "Mathematics"),
            attribute("Completion Date", "2024-06-30"),
            attribute("Tenant ID", "7"),
            attribute("Certificate Type", "Academic Certificate"),
        ]
    );
}

#[test]
fn certificate_attributes_end_with_the_grade() {
    let a = certificate(Some("A+"));
    let list = build_certificate_attributes(
        7,
        &a.student_name,
        &a.course_name,
        &a.completion_date,
        &a.grade,
    );
    assert_eq!(list.len(), 6);
    assert_eq!(list[5], attribute("Grade", "A+"));
    assert_eq!(list[3], attribute("Tenant ID", "7"));
}

#[test]
fn certificate_request_is_frozen_and_owned_by_the_recipient() {
    let ctx = mint(id(1), college_with_collection(id(100)), id(100));
    assert_eq!(
        ctx.certificate_request(&certificate(Some("B")), 10),
        Ok(CertificateRequest {
            asset: id(70),
            collection: id(100),
            authority: id(1),
            payer: id(1),
            owner: id(80),
            update_authority: id(1),
            name: "BSc".to_string(),
            uri: "https://example.org/c".to_string(),
            attributes: vec![
                attribute("Student Name", "Ada"),
                attribute("Course", "Mathematics"),
                attribute("Completion Date", "2024-06-30"),
                attribute("Tenant ID", "7"),
                attribute("Certificate Type", "Academic Certificate"),
                attribute("Grade", "B"),
            ],
            frozen: true,
        })
    );
}

#[test]
fn mint_returns_the_certificate_id_and_changes_nothing() {
    let mut ctx = mint(id(1), college_with_collection(id(100)), id(100));
    let before = ctx.clone();
    assert_eq!(ctx.mint_certificate(10, Ok(())), Ok(id(70)));
    assert_eq!(ctx, before);
}

#[test]
fn mint_into_unknown_collection_is_refused() {
    let mut ctx = mint(id(1), college_with_collection(id(100)), id(101));
    assert_eq!(
        ctx.certificate_request(&certificate(None), 10),
        Err(CertificateError::CollectionNotFound)
    );
    assert_eq!(ctx.mint_certificate(10, Ok(())), Err(CertificateError::CollectionNotFound));
    let mut empty = mint(id(1), CollegeAccount::new(7, id(1), 255, 0), id(100));
    assert_eq!(empty.mint_certificate(10, Ok(())), Err(CertificateError::CollectionNotFound));
}

#[test]
fn stranger_cannot_mint() {
    for now in [0i64, 1_000, 1_001, i64::MAX] {
        let mut ctx = mint(id(2), college_with_collection(id(100)), id(100));
        assert_eq!(
            ctx.certificate_request(&certificate(None), now),
            Err(CertificateError::NotAuthorized)
        );
        assert_eq!(ctx.mint_certificate(now, Ok(())), Err(CertificateError::NotAuthorized));
    }
    let mut unknown = mint(id(2), college_with_collection(id(100)), id(101));
    assert_eq!(unknown.mint_certificate(0, Ok(())), Err(CertificateError::NotAuthorized));
}

#[test]
fn expired_college_cannot_mint() {
    let mut ctx = mint(id(1), college_with_collection(id(100)), id(100));
    assert!(ctx.college_account.active);
    assert_eq!(ctx.mint_certificate(1_000, Ok(())), Ok(id(70)));
    assert_eq!(ctx.mint_certificate(1_001, Ok(())), Err(CertificateError::CollegeNotActive));
    assert_eq!(
        ctx.certificate_request(&certificate(None), 1_001),
        Err(CertificateError::CollegeNotActive)
    );
    let mut unknown = mint(id(1), college_with_collection(id(100)), id(101));
    assert_eq!(unknown.mint_certificate(1_001, Ok(())), Err(CertificateError::CollegeNotActive));
}

#[test]
fn failed_issuance_mints_nothing() {
    let mut ctx = mint(id(1), college_with_collection(id(100)), id(100));
    assert_eq!(
        ctx.mint_certificate(10, Err(IssuanceError::Rejected)),
        Err(CertificateError::IssuanceFailed)
    );
    assert_eq!(
        ctx.mint_certificate(10, Err(IssuanceError::DuplicateIdentifier)),
        Err(CertificateError::DuplicateIdentifier)
    );
}
