use vstd::prelude::*;

verus! {

/// What is known of a student.
#[derive(Clone, Debug, PartialEq, Eq)]
pub struct StudentData {
    pub name: String,
    pub id: String,
    pub program: String,
    pub year: u16,
}

} // verus!
