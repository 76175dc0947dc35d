use vstd::prelude::*;
use crate::identity::Identity;

verus! {

/// The address and bump that the identifier derivation gives for a list of
/// seeds under a program, or `None` where it gives none. Nothing is known of
/// it but that the same seeds and program always give the same answer.
pub uninterp spec fn derived_address(seeds: Seq<Seq<u8>>, program: Seq<u8>) -> Option<(Seq<u8>, u8)>;

/// A derived address and its bump as plain values.
pub open spec fn address_view(found: Option<(Identity, u8)>) -> Option<(Seq<u8>, u8)> {
    match found {
        Some((address, bump)) => Some((address@, bump)),
        None => None,
    }
}

/// The bytes of the tag `protocol`.
pub open spec fn protocol_tag() -> Seq<u8> {
    seq![112u8, 114u8, 111u8, 116u8, 111u8, 99u8, 111u8, 108u8]
}

/// The bytes of the tag `college`.
pub open spec fn college_tag() -> Seq<u8> {
    seq![99u8, 111u8, 108u8, 108u8, 101u8, 103u8, 101u8]
}

/// A college id as two bytes, low byte first.
pub open spec fn id_bytes(college_id: u16) -> Seq<u8> {
    seq![(college_id % 256) as u8, (college_id / 256) as u8]
}

/// The seeds of the protocol ledger's address.
pub open spec fn protocol_seeds() -> Seq<Seq<u8>> {
    seq![protocol_tag()]
}

/// The seeds of the address of the college `college_id`.
pub open spec fn college_seeds(college_id: u16) -> Seq<Seq<u8>> {
    seq![college_tag(), id_bytes(college_id)]
}

/// The seeds with which the protocol ledger signs for its treasury: those of
/// its address, and the bump.
pub open spec fn signer_seeds(bump: u8) -> Seq<Seq<u8>> {
    seq![protocol_tag(), seq![bump]]
}

/// Calls `Pubkey::try_find_program_address` of `anchor_lang`. The contract
/// claims only that the outcome is a function of the seeds and the program:
/// the address and bump found, or `None` where the search finds none.
#[verifier::external_body]
fn find_address(seeds: &Vec<Vec<u8>>, program: &Identity) -> (found: Option<(Identity, u8)>)
    ensures
        address_view(found) == derived_address(seeds.deep_view(), program@),
{
    let parts: Vec<&[u8]> = seeds.iter().map(|s| s.as_slice()).collect();
    let program = anchor_lang::prelude::Pubkey::new_from_array(program.bytes);
    match anchor_lang::prelude::Pubkey::try_find_program_address(&parts, &program) {
        Some((address, bump)) => Some((Identity { bytes: address.to_bytes() }, bump)),
        None => None,
    }
}

fn protocol_tag_bytes() -> (tag: Vec<u8>)
    ensures
        tag@ == protocol_tag(),
{
    let tag: Vec<u8> = vec![112u8, 114u8, 111u8, 116u8, 111u8, 99u8, 111u8, 108u8];
    assert(tag@ =~= protocol_tag());
    tag
}

fn college_tag_bytes() -> (tag: Vec<u8>)
    ensures
        tag@ == college_tag(),
{
    let tag: Vec<u8> = vec![99u8, 111u8, 108u8, 108u8, 101u8, 103u8, 101u8];
    assert(tag@ =~= college_tag());
    tag
}

/// Builds the seeds of the protocol ledger's address.
pub fn make_protocol_seeds() -> (seeds: Vec<Vec<u8>>)
    ensures
        seeds.deep_view() == protocol_seeds(),
{
    let mut seeds: Vec<Vec<u8>> = Vec::new();
    seeds.push(protocol_tag_bytes());
    assert(seeds.deep_view() =~~= protocol_seeds());
    seeds
}

/// Builds the seeds of the address of the college `college_id`.
pub fn make_college_seeds(college_id: u16) -> (seeds: Vec<Vec<u8>>)
    ensures
        seeds.deep_view() == college_seeds(college_id),
{
    let mut key: Vec<u8> = Vec::new();
    key.push((college_id % 256) as u8);
    key.push((college_id / 256) as u8);
    assert(key@ =~= id_bytes(college_id));
    let mut seeds: Vec<Vec<u8>> = Vec::new();
    seeds.push(college_tag_bytes());
    seeds.push(key);
    assert(seeds.deep_view() =~~= college_seeds(college_id));
    seeds
}

/// Builds the seeds with which the protocol ledger signs.
pub(crate) fn make_signer_seeds(bump: u8) -> (seeds: Vec<Vec<u8>>)
    ensures
        seeds.deep_view() == signer_seeds(bump),
{
    let mut last: Vec<u8> = Vec::new();
    last.push(bump);
    assert(last@ =~= seq![bump]);
    let mut seeds: Vec<Vec<u8>> = Vec::new();
    seeds.push(protocol_tag_bytes());
    seeds.push(last);
    assert(seeds.deep_view() =~~= signer_seeds(bump));
    seeds
}

/// The address of the protocol ledger under `program`, with its bump.
pub fn protocol_address(program: &Identity) -> (found: Option<(Identity, u8)>)
    ensures
        address_view(found) == derived_address(protocol_seeds(), program@),
{
    let seeds = make_protocol_seeds();
    find_address(&seeds, program)
}

/// The address of the college `college_id` under `program`, with its bump.
pub fn college_address(college_id: u16, program: &Identity) -> (found: Option<(Identity, u8)>)
    ensures
        address_view(found) == derived_address(college_seeds(college_id), program@),
{
    let seeds = make_college_seeds(college_id);
    find_address(&seeds, program)
}

} // verus!
