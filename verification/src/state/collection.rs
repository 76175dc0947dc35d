use vstd::prelude::*;
use crate::identity::Identity;

verus! {

/// A collection known by its mint and its edition.
#[derive(Clone, Copy, Debug, PartialEq, Eq)]
pub struct CollectionInfo {
    pub mint: Identity,
    pub edition: Identity,
}

} // verus!
