use vstd::prelude::*;
use vstd::string::StrSliceExecFns;
use crate::attributes::{build_collection_attributes, collection_attributes};
use crate::error::{issuance_failure, CertificateError, IssuanceError};
use crate::gate::{gate, gate_decision};
use crate::identity::Identity;
use crate::services::{CollectionRequest, CollectionRequestView};
use crate::state::college::{
    metadata_in_bounds, CollectionInfo, CollectionInfoView, CollegeAccount, CollegeAccountView,
    MAX_COLLECTIONS, MAX_NAME_LEN, MAX_URI_LEN,
};
use crate::state::protocol::MetaverfAccount;

verus! {

/// The name and uri of a collection to add.
#[derive(Clone, Debug, PartialEq, Eq)]
pub struct AddCollectionArgs {
    pub name: String,
    pub uri: String,
}

impl AddCollectionArgs {
    /// Whether the name and the uri are within the bounds for a collection's metadata.
    pub fn in_bounds(&self) -> (r: bool)
        ensures
            r == metadata_in_bounds(self.name@, self.uri@),
    {
        self.name.as_str().unicode_len() <= MAX_NAME_LEN && self.uri.as_str().unicode_len()
            <= MAX_URI_LEN
    }
}

/// What adding a collection works on: the caller, the ledger, the college's
/// record and the identifier of the collection to create.
#[derive(Clone, Debug, PartialEq, Eq)]
pub struct AddCollection {
    /// The caller, who signs and pays for the new collection.
    pub college_authority: Identity,
    pub metaverf_account: MetaverfAccount,
    pub college_account: CollegeAccount,
    /// The identifier under which the issuance service creates the collection.
    pub new_collection: Identity,
}

/// Whether a collection may be added: authority and subscription first,
/// then the limit.
pub open spec fn add_collection_check(
    caller: Identity,
    college: CollegeAccountView,
    subscription_duration: i64,
    now: i64,
) -> Result<(), CertificateError> {
    match gate_decision(caller, college, subscription_duration, now) {
        Err(e) => Err(e),
        Ok(_) => if college.collections.len() >= MAX_COLLECTIONS {
            Err(CertificateError::CollectionLimitReached)
        } else {
            Ok(())
        },
    }
}

/// What adding a collection gives, and the college's record after it. The
/// record changes only where every check passes and the issuance service
/// created the collection: then the new collection is appended.
pub open spec fn add_collection_step(
    caller: Identity,
    college: CollegeAccountView,
    subscription_duration: i64,
    now: i64,
    info: CollectionInfoView,
    issued: Result<(), IssuanceError>,
) -> (Result<CollectionInfoView, CertificateError>, CollegeAccountView) {
    match add_collection_check(caller, college, subscription_duration, now) {
        Err(e) => (Err(e), college),
        Ok(_) => match issued {
            Err(e) => (Err(issuance_failure(e)), college),
            Ok(_) => (Ok(info), college.with_collection(info)),
        },
    }
}

/// The result of adding a collection as a mathematical value.
pub open spec fn added_view(r: Result<CollectionInfo, CertificateError>) -> Result<
    CollectionInfoView,
    CertificateError,
> {
    match r {
        Ok(info) => Ok(info@),
        Err(e) => Err(e),
    }
}

impl AddCollection {
    /// The record that a collection named as in `args` is kept under.
    pub open spec fn new_info(&self, name: Seq<char>, uri: Seq<char>) -> CollectionInfoView {
        CollectionInfoView { collection: self.new_collection, bump: 0, name, uri }
    }

    /// The collection that the issuance service is to create.
    pub open spec fn request_view(&self, name: Seq<char>, uri: Seq<char>) -> CollectionRequestView {
        CollectionRequestView {
            collection: self.new_collection,
            payer: self.college_authority,
            update_authority: Some(self.college_authority),
            name,
            uri,
            attributes: collection_attributes(self.college_account.id),
        }
    }

    fn check(&self, now: i64) -> (r: Result<(), CertificateError>)
        ensures
            r == add_collection_check(
                self.college_authority,
                self.college_account@,
                self.metaverf_account.subscription_duration,
                now,
            ),
    {
        match gate(
            &self.college_authority,
            &self.college_account,
            self.metaverf_account.subscription_duration,
            now,
        ) {
            Err(e) => Err(e),
            Ok(_) => if self.college_account.collections.len() >= MAX_COLLECTIONS {
                Err(CertificateError::CollectionLimitReached)
            } else {
                Ok(())
            },
        }
    }

    /// Decides whether the collection may be added at `now` and, if so, says
    /// what to ask of the issuance service: a collection owned and updated by
    /// the college's authority, tagged with the college's id. The name and the
    /// uri must be within their bounds.
    pub fn collection_request(&self, args: &AddCollectionArgs, now: i64) -> (r: Result<
        CollectionRequest,
        CertificateError,
    >)
        requires
            metadata_in_bounds(args.name@, args.uri@),
        ensures
            match add_collection_check(
                self.college_authority,
                self.college_account@,
                self.metaverf_account.subscription_duration,
                now,
            ) {
                Err(e) => r == Err::<CollectionRequest, CertificateError>(e),
                Ok(_) => r is Ok && r->Ok_0@ == self.request_view(args.name@, args.uri@),
            },
    {
        match self.check(now) {
            Err(e) => Err(e),
            Ok(_) => Ok(
                CollectionRequest {
                    collection: self.new_collection,
                    payer: self.college_authority,
                    update_authority: Some(self.college_authority),
                    name: args.name.clone(),
                    uri: args.uri.clone(),
                    attributes: build_collection_attributes(self.college_account.id),
                },
            ),
        }
    }

    /// Adds the collection to the college's record, given the issuance
    /// service's answer to the request. The checks are made again here, in one
    /// step with the append; on any error the record is left as it was. The
    /// name and the uri must be within their bounds.
    pub fn add_collection(
        &mut self,
        args: AddCollectionArgs,
        now: i64,
        issued: Result<(), IssuanceError>,
    ) -> (r: Result<CollectionInfo, CertificateError>)
        requires
            metadata_in_bounds(args.name@, args.uri@),
        ensures
            (added_view(r), final(self).college_account@) == add_collection_step(
                old(self).college_authority,
                old(self).college_account@,
                old(self).metaverf_account.subscription_duration,
                now,
                old(self).new_info(args.name@, args.uri@),
                issued,
            ),
            final(self).college_authority == old(self).college_authority,
            final(self).metaverf_account == old(self).metaverf_account,
            final(self).new_collection == old(self).new_collection,
            old(self).college_account@.wf() ==> final(self).college_account@.wf(),
    {
        match self.check(now) {
            Err(e) => Err(e),
            Ok(_) => match issued {
                Err(e) => Err(CertificateError::from_issuance(e)),
                Ok(_) => {
                    let added = CollectionInfo {
                        collection: self.new_collection,
                        bump: 0,
                        name: args.name.clone(),
                        uri: args.uri.clone(),
                    };
                    let info = CollectionInfo {
                        collection: self.new_collection,
                        bump: 0,
                        name: args.name,
                        uri: args.uri,
                    };
                    let ghost appended = info@;
                    self.college_account.collections.push(info);
                    assert(self.college_account@.collections =~= old(self).college_account@.collections.push(appended));
                    Ok(added)
                },
            },
        }
    }
}

} // verus!
