//! A subscription-gated issuance ledger.
//!
//! A protocol registers colleges, each of which pays a recurring fee to stay
//! active. An active college may create a bounded number of collections and
//! mint certificates into them. The fees gather in a treasury that only the
//! protocol's admin may draw on.
//!
//! The library decides; it moves no money and creates no asset. Each
//! operation that needs the payment service or the issuance service comes in
//! two parts: a function that checks the operation and says what to ask of
//! the service, and the operation itself, which takes the service's answer
//! and changes the records accordingly.

pub mod attributes;
pub mod derivation;
pub mod error;
pub mod gate;
pub mod identity;
pub mod instructions;
pub mod laws;
pub mod services;
pub mod state;

pub use error::{CertificateError, IssuanceError, PaymentError};
pub use identity::Identity;
pub use instructions::{
    AddCollection, AddCollectionArgs, CertificateArgs, CreateCollection, CreateCollectionArgs,
    InitializeProtocol, MintCertificate, RegisterCollege, RenewSubscription, UpdateParameter,
    WithdrawFees,
};
pub use state::{Certificate, CollectionInfo, CollegeAccount, MetaverfAccount, StudentData};
