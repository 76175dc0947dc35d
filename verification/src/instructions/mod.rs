pub mod add_collection;
pub mod initialize_collection;
pub mod initialize_protocol;
pub mod mint_certificates;
pub mod register_college;
pub mod renew_subscription;
pub mod update_parameter;
pub mod withdraw_fees;

pub use add_collection::{AddCollection, AddCollectionArgs};
pub use initialize_collection::{CreateCollection, CreateCollectionArgs};
pub use initialize_protocol::InitializeProtocol;
pub use mint_certificates::{CertificateArgs, MintCertificate};
pub use register_college::RegisterCollege;
pub use renew_subscription::RenewSubscription;
pub use update_parameter::UpdateParameter;
pub use withdraw_fees::WithdrawFees;
