use vstd::prelude::*;
use crate::attributes::{attribute_views, Attribute};
use crate::derivation::{make_signer_seeds, signer_seeds};
use crate::identity::Identity;
use crate::state::protocol::MetaverfAccount;

verus! {

/// The ledger record's right to sign for its treasury. The library hands one
/// out only inside the transfer of a withdrawal that the admin asked for;
/// nothing else can make one.
#[derive(Clone, Copy, Debug, PartialEq, Eq)]
pub struct LedgerSigner {
    bump: u8,
}

impl LedgerSigner {
    /// The bump of the ledger record's address.
    pub closed spec fn bump(self) -> u8 {
        self.bump
    }

    pub(crate) fn for_ledger(ledger: &MetaverfAccount) -> (signer: LedgerSigner)
        ensures
            signer.bump() == ledger.verf_bump,
    {
        LedgerSigner { bump: ledger.verf_bump }
    }

    /// The seeds to sign with: those of the ledger record's address, and its bump.
    pub fn seeds(&self) -> (seeds: Vec<Vec<u8>>)
        ensures
            seeds.deep_view() == signer_seeds(self.bump()),
    {
        make_signer_seeds(self.bump)
    }
}

/// Who signs a transfer.
#[derive(Clone, Copy, Debug, PartialEq, Eq)]
pub enum TransferSigner {
    /// A person, with their own key: whoever pays a fee.
    Payer(Identity),
    /// The protocol's ledger record itself. Only a withdrawal from the
    /// treasury is signed this way.
    Protocol(LedgerSigner),
}

/// A transfer for the payment service to carry out.
#[derive(Clone, Copy, Debug, PartialEq, Eq)]
pub struct Transfer {
    /// The token account that pays.
    pub from: Identity,
    /// The token account that receives.
    pub to: Identity,
    pub signer: TransferSigner,
    pub amount: u64,
    /// The decimals of the fee currency, which the payment service checks.
    pub decimals: u8,
}

/// A collection for the issuance service to create.
#[derive(Clone, Debug, PartialEq, Eq)]
pub struct CollectionRequest {
    /// The identifier of the new collection.
    pub collection: Identity,
    pub payer: Identity,
    pub update_authority: Option<Identity>,
    pub name: String,
    pub uri: String,
    pub attributes: Vec<Attribute>,
}

/// A collection request as a mathematical value.
pub struct CollectionRequestView {
    pub collection: Identity,
    pub payer: Identity,
    pub update_authority: Option<Identity>,
    pub name: Seq<char>,
    pub uri: Seq<char>,
    pub attributes: Seq<(Seq<char>, Seq<char>)>,
}

impl View for CollectionRequest {
    type V = CollectionRequestView;

    open spec fn view(&self) -> CollectionRequestView {
        CollectionRequestView {
            collection: self.collection,
            payer: self.payer,
            update_authority: self.update_authority,
            name: self.name@,
            uri: self.uri@,
            attributes: attribute_views(self.attributes@),
        }
    }
}

/// A certificate for the issuance service to create.
#[derive(Clone, Debug, PartialEq, Eq)]
pub struct CertificateRequest {
    /// The identifier of the new certificate.
    pub asset: Identity,
    /// The collection that the certificate joins.
    pub collection: Identity,
    pub authority: Identity,
    pub payer: Identity,
    /// The recipient, who owns the certificate.
    pub owner: Identity,
    pub update_authority: Identity,
    pub name: String,
    pub uri: String,
    pub attributes: Vec<Attribute>,
    /// Frozen for good: the certificate can never be transferred or changed.
    pub frozen: bool,
}

/// A certificate request as a mathematical value.
pub struct CertificateRequestView {
    pub asset: Identity,
    pub collection: Identity,
    pub authority: Identity,
    pub payer: Identity,
    pub owner: Identity,
    pub update_authority: Identity,
    pub name: Seq<char>,
    pub uri: Seq<char>,
    pub attributes: Seq<(Seq<char>, Seq<char>)>,
    pub frozen: bool,
}

impl View for CertificateRequest {
    type V = CertificateRequestView;

    open spec fn view(&self) -> CertificateRequestView {
        CertificateRequestView {
            asset: self.asset,
            collection: self.collection,
            authority: self.authority,
            payer: self.payer,
            owner: self.owner,
            update_authority: self.update_authority,
            name: self.name@,
            uri: self.uri@,
            attributes: attribute_views(self.attributes@),
            frozen: self.frozen,
        }
    }
}

} // verus!
