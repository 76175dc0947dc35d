use vstd::prelude::*;
use crate::identity::Identity;

verus! {

/// The most collections that one college may own.
pub const MAX_COLLECTIONS: usize = 10;

/// The most characters in a collection's name.
pub const MAX_NAME_LEN: usize = 50;

/// The most characters in a collection's uri.
pub const MAX_URI_LEN: usize = 200;

/// Whether a name and a uri are within the bounds set for a collection's metadata.
pub open spec fn metadata_in_bounds(name: Seq<char>, uri: Seq<char>) -> bool {
    name.len() <= MAX_NAME_LEN && uri.len() <= MAX_URI_LEN
}

/// One collection of a college. It lives inside the college's record and
/// never moves to another.
#[derive(Clone, Debug, PartialEq, Eq)]
pub struct CollectionInfo {
    /// The identifier that the issuance service knows the collection by.
    pub collection: Identity,
    pub bump: u8,
    pub name: String,
    pub uri: String,
}

/// A collection as a mathematical value.
pub struct CollectionInfoView {
    pub collection: Identity,
    pub bump: u8,
    pub name: Seq<char>,
    pub uri: Seq<char>,
}

impl View for CollectionInfo {
    type V = CollectionInfoView;

    open spec fn view(&self) -> CollectionInfoView {
        CollectionInfoView {
            collection: self.collection,
            bump: self.bump,
            name: self.name@,
            uri: self.uri@,
        }
    }
}

impl CollectionInfoView {
    /// The metadata is within its bounds.
    pub open spec fn wf(self) -> bool {
        metadata_in_bounds(self.name, self.uri)
    }
}

/// The record of one registered college.
#[derive(Clone, Debug, PartialEq, Eq)]
pub struct CollegeAccount {
    /// Assigned at registration: one more than the number of colleges before it.
    pub id: u16,
    /// The identity that may act for the college.
    pub authority: Identity,
    /// The identity recorded as update authority of what the college issues.
    pub update_authority: Identity,
    /// When the subscription fee was last paid.
    pub last_payment: i64,
    /// Set when the fee is paid. Never cleared: whether the subscription has
    /// run out is worked out from `last_payment` whenever it matters.
    pub active: bool,
    pub bump: u8,
    /// The college's collections, oldest first.
    pub collections: Vec<CollectionInfo>,
}

/// A college's record as a mathematical value.
pub struct CollegeAccountView {
    pub id: u16,
    pub authority: Identity,
    pub update_authority: Identity,
    pub last_payment: i64,
    pub active: bool,
    pub bump: u8,
    pub collections: Seq<CollectionInfoView>,
}

impl View for CollegeAccount {
    type V = CollegeAccountView;

    open spec fn view(&self) -> CollegeAccountView {
        CollegeAccountView {
            id: self.id,
            authority: self.authority,
            update_authority: self.update_authority,
            last_payment: self.last_payment,
            active: self.active,
            bump: self.bump,
            collections: self.collections@.map_values(|c: CollectionInfo| c@),
        }
    }
}

impl CollegeAccountView {
    /// The record's invariant: no more collections than allowed, each with
    /// metadata within its bounds.
    pub open spec fn wf(self) -> bool {
        &&& self.collections.len() <= MAX_COLLECTIONS
        &&& forall|i: int| 0 <= i < self.collections.len() ==> (#[trigger] self.collections[i]).wf()
    }

    /// Whether the college owns the collection `collection`.
    pub open spec fn owns(self, collection: Identity) -> bool {
        exists|i: int| 0 <= i < self.collections.len() && (#[trigger] self.collections[i]).collection == collection
    }

    /// The record of a college that has just registered.
    pub open spec fn registered(id: u16, authority: Identity, bump: u8, now: i64) -> CollegeAccountView {
        CollegeAccountView {
            id,
            authority,
            update_authority: authority,
            last_payment: now,
            active: true,
            bump,
            collections: Seq::empty(),
        }
    }

    /// The record after the fee was paid at `now`.
    pub open spec fn renewed(self, now: i64) -> CollegeAccountView {
        CollegeAccountView { last_payment: now, active: true, ..self }
    }

    /// The record after `info` was appended to its collections.
    pub open spec fn with_collection(self, info: CollectionInfoView) -> CollegeAccountView {
        CollegeAccountView { collections: self.collections.push(info), ..self }
    }
}

impl CollegeAccount {
    /// The record of a college that registers at `now` under `id`.
    pub fn new(id: u16, authority: Identity, bump: u8, now: i64) -> (college: CollegeAccount)
        ensures
            college@ == CollegeAccountView::registered(id, authority, bump, now),
            college@.wf(),
    {
        let college = CollegeAccount {
            id,
            authority,
            update_authority: authority,
            last_payment: now,
            active: true,
            bump,
            collections: Vec::new(),
        };
        assert(college@.collections =~= Seq::empty());
        college
    }

    /// Whether the college owns the collection `collection`.
    pub fn owns(&self, collection: &Identity) -> (r: bool)
        ensures
            r == self@.owns(*collection),
    {
        let mut i: usize = 0;
        while i < self.collections.len()
            invariant
                i <= self.collections.len(),
                forall|j: int| 0 <= j < i ==> (#[trigger] self@.collections[j]).collection != *collection,
            decreases self.collections.len() - i,
        {
            if self.collections[i].collection == *collection {
                assert(self@.collections[i as int].collection == *collection);
                return true;
            }
            i += 1;
        }
        false
    }
}

} // verus!
