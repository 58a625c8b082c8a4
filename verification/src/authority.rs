//! Derivation of the listing authority: the deterministic, key-less identity
//! that controls the escrow holding account.
//!
//! The derivation maps `(protocol identity, domain tag, seller, asset)` to an
//! address with no corresponding private key, by searching a one-byte nonce
//! space. The nonce found at creation is stored in the listing so that later
//! operations can reconstruct the identical address without searching again.

use vstd::prelude::*;

verus! {

/// What the full nonce search returns for a seed tuple: the derived address
/// and the nonce under which the derivation succeeded, if any nonce works.
pub uninterp spec fn derived_address(
    program: Seq<u8>,
    tag: Seq<u8>,
    seller: Seq<u8>,
    asset: Seq<u8>,
) -> Option<(Seq<u8>, u8)>;

/// What single-nonce derivation returns for a seed tuple and a given nonce:
/// the derived address, if that nonce yields one.
pub uninterp spec fn derived_address_with_nonce(
    program: Seq<u8>,
    tag: Seq<u8>,
    seller: Seq<u8>,
    asset: Seq<u8>,
    nonce: u8,
) -> Option<Seq<u8>>;

/// The domain tag that separates listing authorities from every other
/// derivation of the protocol: the bytes of the ASCII string `listing`.
pub open spec fn listing_tag_spec() -> Seq<u8> {
    seq![108u8, 105u8, 115u8, 116u8, 105u8, 110u8, 103u8]
}

/// The address and nonce of the listing authority for a seller and asset
/// under a protocol identity, if the nonce search succeeds.
pub open spec fn listing_authority(
    program: Seq<u8>,
    seller: Seq<u8>,
    asset: Seq<u8>,
) -> Option<(Seq<u8>, u8)> {
    derived_address(program, listing_tag_spec(), seller, asset)
}

/// The listing authority reconstructed from a stored nonce.
pub open spec fn listing_nonce_authority(
    program: Seq<u8>,
    seller: Seq<u8>,
    asset: Seq<u8>,
    nonce: u8,
) -> Option<Seq<u8>> {
    derived_address_with_nonce(program, listing_tag_spec(), seller, asset, nonce)
}

/// Returns the bytes of the listing domain tag.
fn listing_tag() -> (r: Vec<u8>)
    ensures
        r@ == listing_tag_spec(),
{
    let mut tag: Vec<u8> = Vec::new();
    tag.push(108);
    tag.push(105);
    tag.push(115);
    tag.push(116);
    tag.push(105);
    tag.push(110);
    tag.push(103);
    proof {
        assert(tag@ =~= listing_tag_spec());
    }
    tag
}

/// Relies on solana_pubkey::Pubkey::try_find_program_address (re-exported as
/// anchor_lang::prelude::Pubkey): it searches the one-byte nonce space from
/// the top and returns the first address that create_program_address accepts,
/// together with that nonce; the result depends on the seeds and the program
/// identity alone.
#[verifier::external_body]
fn find_derived_address(
    program: &[u8; 32],
    tag: &[u8],
    seller: &[u8; 32],
    asset: &[u8; 32],
) -> (r: Option<([u8; 32], u8)>)
    ensures
        r is Some <==> derived_address(program@, tag@, seller@, asset@) is Some,
        r matches Some(p) ==> derived_address(program@, tag@, seller@, asset@) == Some((p.0@, p.1))
            && derived_address_with_nonce(program@, tag@, seller@, asset@, p.1) == Some(p.0@),
{
    let program_id = anchor_lang::prelude::Pubkey::new_from_array(*program);
    let seeds: [&[u8]; 3] = [tag, &seller[..], &asset[..]];
    anchor_lang::prelude::Pubkey::try_find_program_address(&seeds, &program_id)
        .map(|(key, nonce)| (key.to_bytes(), nonce))
}

/// Relies on solana_pubkey::Pubkey::create_program_address (re-exported as
/// anchor_lang::prelude::Pubkey): it hashes the seeds, the nonce and the
/// program identity into an address, rejecting the nonce when the hash lands
/// in the valid keyspace; the result depends on its arguments alone.
#[verifier::external_body]
fn derive_with_nonce(
    program: &[u8; 32],
    tag: &[u8],
    seller: &[u8; 32],
    asset: &[u8; 32],
    nonce: u8,
) -> (r: Option<[u8; 32]>)
    ensures
        r is Some <==> derived_address_with_nonce(program@, tag@, seller@, asset@, nonce) is Some,
        r matches Some(a) ==> derived_address_with_nonce(program@, tag@, seller@, asset@, nonce)
            == Some(a@),
{
    let program_id = anchor_lang::prelude::Pubkey::new_from_array(*program);
    let nonce_seed: [u8; 1] = [nonce];
    let seeds: [&[u8]; 4] = [tag, &seller[..], &asset[..], &nonce_seed[..]];
    anchor_lang::prelude::Pubkey::create_program_address(&seeds, &program_id)
        .ok()
        .map(|key| key.to_bytes())
}

/// Searches the nonce space for the listing authority of a seller and asset.
///
/// The result is a function of the three identities alone, so recomputing it
/// for the same tuple always yields the same address and nonce. When it
/// succeeds, reconstructing the address from the returned nonce alone yields
/// the same address.
pub fn derive_listing_authority(
    program: &[u8; 32],
    seller: &[u8; 32],
    asset: &[u8; 32],
) -> (r: Option<([u8; 32], u8)>)
    ensures
        r is Some <==> listing_authority(program@, seller@, asset@) is Some,
        r matches Some(p) ==> listing_authority(program@, seller@, asset@) == Some((p.0@, p.1))
            && listing_nonce_authority(program@, seller@, asset@, p.1) == Some(p.0@),
{
    let tag = listing_tag();
    find_derived_address(program, tag.as_slice(), seller, asset)
}

/// Reconstructs the listing authority from a stored nonce, without searching.
///
/// The result is a function of the arguments alone: any two calls on the same
/// identities and nonce yield the same address.
pub fn recompute_listing_authority(
    program: &[u8; 32],
    seller: &[u8; 32],
    asset: &[u8; 32],
    nonce: u8,
) -> (r: Option<[u8; 32]>)
    ensures
        r is Some <==> listing_nonce_authority(program@, seller@, asset@, nonce) is Some,
        r matches Some(a) ==> listing_nonce_authority(program@, seller@, asset@, nonce) == Some(a@),
{
    let tag = listing_tag();
    derive_with_nonce(program, tag.as_slice(), seller, asset, nonce)
}

} // verus!
