use vstd::prelude::*;
use crate::identity::Identity;

verus! {

/// A certificate as a record of its own: its owner and its traits, as bytes.
#[derive(Clone, Debug, PartialEq, Eq)]
pub struct Certificate {
    pub owner: Identity,
    pub traits: Vec<u8>,
}

} // verus!
