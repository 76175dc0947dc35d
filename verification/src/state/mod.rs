pub mod certificate;
pub mod collection;
pub mod college;
pub mod protocol;
pub mod student;

pub use certificate::Certificate;
pub use college::{CollectionInfo, CollegeAccount};
pub use protocol::MetaverfAccount;
pub use student::StudentData;
