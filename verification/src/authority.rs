use vstd::prelude::*;
use vstd::slice::slice_to_vec;
use vstd::string::StringSliceAdditionalSpecFns;
use anchor_lang::prelude::Pubkey;
use crate::identity::{lemma_identity_by_bytes, Identity};

verus! {

/// The address that `Pubkey::create_program_address` derives for a program
/// from a list of seeds, or `None` where it derives none.
pub uninterp spec fn derived_address(seeds: Seq<Seq<u8>>, program: Seq<u8>) -> Option<Seq<u8>>;

/// The address and the bump seed that `Pubkey::try_find_program_address`
/// finds for a program and a list of seeds, or `None` where it finds none.
pub uninterp spec fn found_address(seeds: Seq<Seq<u8>>, program: Seq<u8>) -> Option<
    (Seq<u8>, u8),
>;

/// A list of seeds as the derivation reads it: each seed as its bytes.
pub open spec fn seed_bytes(seeds: Seq<Vec<u8>>) -> Seq<Seq<u8>> {
    Seq::new(seeds.len(), |i: int| seeds[i]@)
}

/// Calls `Pubkey::create_program_address` of solana-program (through
/// anchor-lang) on the seeds and the program's identity.
///
/// Trusted: the result is the one that [`derived_address`] names.
#[verifier::external_body]
pub(crate) fn create_address(seeds: &Vec<Vec<u8>>, program: &Identity) -> (r: Option<Identity>)
    ensures
        match r {
            Some(id) => derived_address(seed_bytes(seeds@), program@) == Some(id@),
            None => derived_address(seed_bytes(seeds@), program@) is None,
        },
{
    let parts: Vec<&[u8]> = seeds.iter().map(|s| s.as_slice()).collect();
    match Pubkey::create_program_address(&parts, &Pubkey::new_from_array(program.bytes)) {
        Ok(key) => Some(Identity { bytes: key.to_bytes() }),
        Err(_) => None,
    }
}

/// Calls `Pubkey::try_find_program_address` of solana-program (through
/// anchor-lang) on the seeds and the program's identity.
///
/// Trusted: the result is the one that [`found_address`] names, and an address
/// that is found with a bump seed is the address that the seeds, followed by
/// that bump seed as one more seed of one byte, derive.
#[verifier::external_body]
pub(crate) fn find_address(seeds: &Vec<Vec<u8>>, program: &Identity) -> (r: Option<(Identity, u8)>)
    ensures
        match r {
            Some((id, bump)) => {
                &&& found_address(seed_bytes(seeds@), program@) == Some((id@, bump))
                &&& derived_address(seed_bytes(seeds@).push(seq![bump]), program@) == Some(id@)
            },
            None => found_address(seed_bytes(seeds@), program@) is None,
        },
{
    let parts: Vec<&[u8]> = seeds.iter().map(|s| s.as_slice()).collect();
    match Pubkey::try_find_program_address(&parts, &Pubkey::new_from_array(program.bytes)) {
        Some((key, bump)) => Some((Identity { bytes: key.to_bytes() }, bump)),
        None => None,
    }
}

/// The identity whose bytes are `bytes`.
pub open spec fn identity_of(bytes: Seq<u8>) -> Identity {
    choose|id: Identity| id@ == bytes
}

/// An identity is the identity of its own bytes.
pub proof fn lemma_identity_of(id: Identity)
    ensures
        identity_of(id@) == id,
{
    lemma_identity_by_bytes(identity_of(id@), id);
}

/// The authority that the seeds derive for `program`, if they derive one.
pub open spec fn authority_of(seeds: Seq<Seq<u8>>, program: Identity) -> Option<Identity> {
    match derived_address(seeds, program@) {
        Some(bytes) => Some(identity_of(bytes)),
        None => None,
    }
}

/// The authority and the bump seed that a search finds for the seeds and
/// `program`, if it finds any.
pub open spec fn authority_found(seeds: Seq<Seq<u8>>, program: Identity) -> Option<(Identity, u8)> {
    match found_address(seeds, program@) {
        Some((bytes, bump)) => Some((identity_of(bytes), bump)),
        None => None,
    }
}

/// Derives the authority of a list of seeds that ends in its bump seed.
pub fn derive_authority(seeds: &Vec<Vec<u8>>, program: &Identity) -> (r: Option<Identity>)
    ensures
        r == authority_of(seed_bytes(seeds@), *program),
{
    let r = create_address(seeds, program);
    proof {
        if let Some(id) = r {
            lemma_identity_of(id);
        }
    }
    r
}

/// Searches the bump seed that completes a list of seeds, and the authority
/// that the completed list derives.
pub fn find_authority(seeds: &Vec<Vec<u8>>, program: &Identity) -> (r: Option<(Identity, u8)>)
    ensures
        r == authority_found(seed_bytes(seeds@), *program),
        r matches Some((id, bump)) ==> authority_of(with_bump(seed_bytes(seeds@), bump), *program)
            == Some(id),
{
    let r = find_address(seeds, program);
    proof {
        if let Some((id, bump)) = r {
            lemma_identity_of(id);
        }
    }
    r
}

/// The tag that starts the seeds of a marketplace.
pub open spec fn marketplace_tag() -> Seq<u8> {
    "marketplace".spec_bytes()
}

/// The tag that starts the seeds of a marketplace's treasury.
pub open spec fn treasury_tag() -> Seq<u8> {
    "treasury".spec_bytes()
}

/// The tag that starts the seeds of a marketplace's reward issuer.
pub open spec fn rewards_tag() -> Seq<u8> {
    "rewards".spec_bytes()
}

/// The seeds of the marketplace called `name`, without a bump seed.
pub open spec fn marketplace_seeds(name: Seq<u8>) -> Seq<Seq<u8>> {
    seq![marketplace_tag(), name]
}

/// The seeds of what a marketplace owns under `tag`, without a bump seed.
pub open spec fn owned_seeds(tag: Seq<u8>, marketplace: Identity) -> Seq<Seq<u8>> {
    seq![tag, marketplace@]
}

/// The seeds of the listing of `asset` on `marketplace`, without a bump seed.
pub open spec fn listing_seeds(marketplace: Identity, asset: Identity) -> Seq<Seq<u8>> {
    seq![marketplace@, asset@]
}

/// Seeds followed by a bump seed: what a stored bump re-derives an authority
/// from.
pub open spec fn with_bump(seeds: Seq<Seq<u8>>, bump: u8) -> Seq<Seq<u8>> {
    seeds.push(seq![bump])
}

/// Appends the bump seed to a list of seeds.
pub fn push_bump(seeds: &mut Vec<Vec<u8>>, bump: u8)
    ensures
        seed_bytes(final(seeds)@) == with_bump(seed_bytes(old(seeds)@), bump),
{
    let mut last: Vec<u8> = Vec::new();
    last.push(bump);
    seeds.push(last);
    assert(seed_bytes(seeds@) =~= with_bump(seed_bytes(old(seeds)@), bump));
}

/// Builds the seeds of the marketplace called `name`, without a bump seed.
pub fn build_marketplace_seeds(name: &str) -> (seeds: Vec<Vec<u8>>)
    ensures
        seed_bytes(seeds@) == marketplace_seeds(name.spec_bytes()),
{
    let mut seeds: Vec<Vec<u8>> = Vec::new();
    seeds.push(slice_to_vec("marketplace".as_bytes()));
    seeds.push(slice_to_vec(name.as_bytes()));
    assert(seed_bytes(seeds@) =~= marketplace_seeds(name.spec_bytes()));
    seeds
}

/// Builds the seeds of a marketplace's treasury, without a bump seed.
pub fn build_treasury_seeds(marketplace: &Identity) -> (seeds: Vec<Vec<u8>>)
    ensures
        seed_bytes(seeds@) == owned_seeds(treasury_tag(), *marketplace),
{
    let mut seeds: Vec<Vec<u8>> = Vec::new();
    seeds.push(slice_to_vec("treasury".as_bytes()));
    seeds.push(marketplace.to_bytes());
    assert(seed_bytes(seeds@) =~= owned_seeds(treasury_tag(), *marketplace));
    seeds
}

/// Builds the seeds of a marketplace's reward issuer, without a bump seed.
pub fn build_rewards_seeds(marketplace: &Identity) -> (seeds: Vec<Vec<u8>>)
    ensures
        seed_bytes(seeds@) == owned_seeds(rewards_tag(), *marketplace),
{
    let mut seeds: Vec<Vec<u8>> = Vec::new();
    seeds.push(slice_to_vec("rewards".as_bytes()));
    seeds.push(marketplace.to_bytes());
    assert(seed_bytes(seeds@) =~= owned_seeds(rewards_tag(), *marketplace));
    seeds
}

/// Builds the seeds of the listing of `asset` on `marketplace`, without a bump
/// seed.
pub fn build_listing_seeds(marketplace: &Identity, asset: &Identity) -> (seeds: Vec<Vec<u8>>)
    ensures
        seed_bytes(seeds@) == listing_seeds(*marketplace, *asset),
{
    let mut seeds: Vec<Vec<u8>> = Vec::new();
    seeds.push(marketplace.to_bytes());
    seeds.push(asset.to_bytes());
    assert(seed_bytes(seeds@) =~= listing_seeds(*marketplace, *asset));
    seeds
}

/// Finds the identity of the marketplace called `name`, and its bump seed.
pub fn find_marketplace(program: &Identity, name: &str) -> (r: Option<(Identity, u8)>)
    ensures
        r == authority_found(marketplace_seeds(name.spec_bytes()), *program),
        r matches Some((id, bump)) ==> authority_of(
            with_bump(marketplace_seeds(name.spec_bytes()), bump),
            *program,
        ) == Some(id),
{
    find_authority(&build_marketplace_seeds(name), program)
}

/// Finds the identity of a marketplace's treasury, and its bump seed.
pub fn find_treasury(program: &Identity, marketplace: &Identity) -> (r: Option<(Identity, u8)>)
    ensures
        r == authority_found(owned_seeds(treasury_tag(), *marketplace), *program),
        r matches Some((id, bump)) ==> authority_of(
            with_bump(owned_seeds(treasury_tag(), *marketplace), bump),
            *program,
        ) == Some(id),
{
    find_authority(&build_treasury_seeds(marketplace), program)
}

/// Finds the identity of a marketplace's reward credit, and its bump seed.
pub fn find_rewards_mint(program: &Identity, marketplace: &Identity) -> (r: Option<
    (Identity, u8),
>)
    ensures
        r == authority_found(owned_seeds(rewards_tag(), *marketplace), *program),
        r matches Some((id, bump)) ==> authority_of(
            with_bump(owned_seeds(rewards_tag(), *marketplace), bump),
            *program,
        ) == Some(id),
{
    find_authority(&build_rewards_seeds(marketplace), program)
}

/// Finds the identity of the listing of `asset` on `marketplace`, and its bump
/// seed.
pub fn find_listing(program: &Identity, marketplace: &Identity, asset: &Identity) -> (r: Option<
    (Identity, u8),
>)
    ensures
        r == authority_found(listing_seeds(*marketplace, *asset), *program),
        r matches Some((id, bump)) ==> authority_of(
            with_bump(listing_seeds(*marketplace, *asset), bump),
            *program,
        ) == Some(id),
{
    find_authority(&build_listing_seeds(marketplace, asset), program)
}

} // verus!
