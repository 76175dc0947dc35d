use vstd::prelude::*;
use crate::identity::Identity;
use crate::services::{CollectionRequest, CollectionRequestView};

verus! {

/// The name and uri of a bare collection.
#[derive(Clone, Debug, PartialEq, Eq)]
pub struct CreateCollectionArgs {
    pub name: String,
    pub uri: String,
}

/// What the creation of a bare collection works on.
#[derive(Clone, Copy, Debug, PartialEq, Eq)]
pub struct CreateCollection {
    /// The identifier under which the issuance service creates the collection.
    pub collection: Identity,
    pub payer: Identity,
    pub update_authority: Option<Identity>,
}

impl CreateCollection {
    /// Says what to ask of the issuance service: a collection with the given
    /// name and uri, the update authority if there is one, and no attributes.
    pub fn create_core_collection(&self, args: CreateCollectionArgs) -> (request: CollectionRequest)
        ensures
            request@ == (CollectionRequestView {
                collection: self.collection,
                payer: self.payer,
                update_authority: self.update_authority,
                name: args.name@,
                uri: args.uri@,
                attributes: Seq::empty(),
            }),
    {
        let request = CollectionRequest {
            collection: self.collection,
            payer: self.payer,
            update_authority: self.update_authority,
            name: args.name,
            uri: args.uri,
            attributes: Vec::new(),
        };
        assert(request@.attributes =~= Seq::empty());
        request
    }
}

} // verus!
