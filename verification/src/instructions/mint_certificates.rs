use vstd::prelude::*;
use crate::attributes::{build_certificate_attributes, certificate_attributes};
use crate::error::{issuance_failure, CertificateError, IssuanceError};
use crate::gate::{gate, gate_decision};
use crate::identity::Identity;
use crate::services::{CertificateRequest, CertificateRequestView};
use crate::state::college::{CollegeAccount, CollegeAccountView};
use crate::state::protocol::MetaverfAccount;

verus! {

/// What a certificate says. It is used once, to build the certificate's
/// attributes, and not kept.
#[derive(Clone, Debug, PartialEq, Eq)]
pub struct CertificateArgs {
    pub name: String,
    pub uri: String,
    pub student_name: String,
    pub course_name: String,
    pub completion_date: String,
    pub grade: Option<String>,
}

/// A grade, where there is one, as a sequence of characters.
pub open spec fn grade_view(grade: Option<String>) -> Option<Seq<char>> {
    match grade {
        Some(g) => Some(g@),
        None => None,
    }
}

/// What minting a certificate works on: the caller, the ledger, the college's
/// record, the collection to mint into, the identifier of the certificate and
/// the recipient.
#[derive(Clone, Debug, PartialEq, Eq)]
pub struct MintCertificate {
    /// The caller, who signs and pays for the certificate.
    pub college_authority: Identity,
    pub metaverf_account: MetaverfAccount,
    pub college_account: CollegeAccount,
    /// The collection that the certificate is to join.
    pub collection: Identity,
    /// The identifier under which the issuance service creates the certificate.
    pub asset: Identity,
    /// The recipient, who will own the certificate.
    pub student_wallet: Identity,
}

/// Whether a certificate may be minted: authority and subscription first, then whether the
/// college owns the collection.
pub open spec fn mint_check(
    caller: Identity,
    college: CollegeAccountView,
    subscription_duration: i64,
    now: i64,
    collection: Identity,
) -> Result<(), CertificateError> {
    match gate_decision(caller, college, subscription_duration, now) {
        Err(e) => Err(e),
        Ok(_) => if college.owns(collection) {
            Ok(())
        } else {
            Err(CertificateError::CollectionNotFound)
        },
    }
}

/// What minting gives: the certificate's identifier where every check passes
/// and the issuance service created it, else the error.
pub open spec fn mint_step(
    caller: Identity,
    college: CollegeAccountView,
    subscription_duration: i64,
    now: i64,
    collection: Identity,
    asset: Identity,
    issued: Result<(), IssuanceError>,
) -> Result<Identity, CertificateError> {
    match mint_check(caller, college, subscription_duration, now, collection) {
        Err(e) => Err(e),
        Ok(_) => match issued {
            Err(e) => Err(issuance_failure(e)),
            Ok(_) => Ok(asset),
        },
    }
}

impl MintCertificate {
    /// The certificate that the issuance service is to create: owned by the
    /// recipient, under the caller's authority, in the collection, frozen for
    /// good, with the attributes that `args` gives.
    pub open spec fn request_view(&self, args: CertificateArgs) -> CertificateRequestView {
        CertificateRequestView {
            asset: self.asset,
            collection: self.collection,
            authority: self.college_authority,
            payer: self.college_authority,
            owner: self.student_wallet,
            update_authority: self.college_authority,
            name: args.name@,
            uri: args.uri@,
            attributes: certificate_attributes(
                self.college_account.id,
                args.student_name@,
                args.course_name@,
                args.completion_date@,
                grade_view(args.grade),
            ),
            frozen: true,
        }
    }

    fn check(&self, now: i64) -> (r: Result<(), CertificateError>)
        ensures
            r == mint_check(
                self.college_authority,
                self.college_account@,
                self.metaverf_account.subscription_duration,
                now,
                self.collection,
            ),
    {
        match gate(
            &self.college_authority,
            &self.college_account,
            self.metaverf_account.subscription_duration,
            now,
        ) {
            Err(e) => Err(e),
            Ok(_) => if self.college_account.owns(&self.collection) {
                Ok(())
            } else {
                Err(CertificateError::CollectionNotFound)
            },
        }
    }

    /// Decides whether the certificate may be minted at `now` and, if so, says
    /// what to ask of the issuance service.
    pub fn certificate_request(&self, args: &CertificateArgs, now: i64) -> (r: Result<
        CertificateRequest,
        CertificateError,
    >)
        ensures
            match mint_check(
                self.college_authority,
                self.college_account@,
                self.metaverf_account.subscription_duration,
                now,
                self.collection,
            ) {
                Err(e) => r == Err::<CertificateRequest, CertificateError>(e),
                Ok(_) => r is Ok && r->Ok_0@ == self.request_view(*args),
            },
    {
        match self.check(now) {
            Err(e) => Err(e),
            Ok(_) => Ok(
                CertificateRequest {
                    asset: self.asset,
                    collection: self.collection,
                    authority: self.college_authority,
                    payer: self.college_authority,
                    owner: self.student_wallet,
                    update_authority: self.college_authority,
                    name: args.name.clone(),
                    uri: args.uri.clone(),
                    attributes: build_certificate_attributes(
                        self.college_account.id,
                        &args.student_name,
                        &args.course_name,
                        &args.completion_date,
                        &args.grade,
                    ),
                    frozen: true,
                },
            ),
        }
    }

    /// Settles a mint, given the issuance service's answer to the request:
    /// the certificate's identifier, or the error. The checks are made again
    /// here. Nothing that the library keeps changes: the certificate lives
    /// with the issuance service alone.
    pub fn mint_certificate(&mut self, now: i64, issued: Result<(), IssuanceError>) -> (r: Result<
        Identity,
        CertificateError,
    >)
        ensures
            r == mint_step(
                old(self).college_authority,
                old(self).college_account@,
                old(self).metaverf_account.subscription_duration,
                now,
                old(self).collection,
                old(self).asset,
                issued,
            ),
            *final(self) == *old(self),
    {
        match self.check(now) {
            Err(e) => Err(e),
            Ok(_) => match issued {
                Err(e) => Err(CertificateError::from_issuance(e)),
                Ok(_) => Ok(self.asset),
            },
        }
    }
}

} // verus!
