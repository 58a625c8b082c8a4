//! The protocol-wide laws: properties that relate several operations, proved
//! over the spec-level checks and effects that the operations' contracts
//! expose.
//!
//! A successful `create_listing` is summed up by `created`, which holds the
//! check outcome, the effect, and the fact — exported by the operation's
//! contract — that the stored nonce reconstructs the address owning the
//! escrow account. The lemmas take the recomputed authority as an explicit
//! argument, pinned by hypothesis to the one the creation stored, exactly as
//! the derivation contract guarantees for recomputation on the same inputs.

use vstd::prelude::*;

use crate::accounts::listing_cleared;
use crate::accounts::token_account_closed;
use crate::errors::SellNftError;
use crate::protocol::Cancel;
use crate::protocol::CreateListing;
use crate::protocol::Purchase;
use crate::protocol::cancel_applied;
use crate::protocol::cancel_check;
use crate::protocol::create_applied;
use crate::protocol::create_check;
use crate::protocol::purchase_applied;
use crate::protocol::purchase_check;

verus! {

/// A successful creation, as the contract of `create_listing` states it:
/// the checks passed for what the derivation returned, the effect applied,
/// and the stored nonce reconstructs the escrow account's owning address.
pub open spec fn created(
    pre: CreateListing,
    price: u64,
    post: CreateListing,
    derived: Option<(Seq<u8>, u8)>,
) -> bool {
    &&& create_check(pre, price, derived) == Ok::<(), SellNftError>(())
    &&& create_applied(pre, price, derived.unwrap().1, post)
}

/// A purchase request wired to the state a creation left behind: the same
/// protocol identity, seller and asset, the listing entry and escrow account
/// as created, and a buyer holding account for the same asset.
pub open spec fn purchase_follows(post_create: CreateListing, p: Purchase) -> bool {
    &&& p.program == post_create.program
    &&& p.seller == post_create.seller
    &&& p.asset == post_create.asset
    &&& p.listing == post_create.listing
    &&& p.escrow_nft_account == post_create.escrow_nft_account
    &&& p.buyer_nft_account.owner@ == p.buyer@
    &&& p.buyer_nft_account.mint@ == p.asset@
}

/// A cancellation request wired to the state a creation left behind, with
/// the recorded seller as the caller and the seller's own holding account.
pub open spec fn cancel_follows(post_create: CreateListing, k: Cancel) -> bool {
    &&& k.program == post_create.program
    &&& k.seller == post_create.seller
    &&& k.asset == post_create.asset
    &&& k.listing == post_create.listing
    &&& k.escrow_nft_account == post_create.escrow_nft_account
    &&& k.seller_nft_account.owner@ == k.seller@
    &&& k.seller_nft_account.mint@ == k.asset@
}

/// Every listing a creation leaves behind is wholly active: the entry is
/// initialized with the given positive price, and the escrow account holds
/// exactly the one unit under sale.
pub proof fn lemma_created_listing_well_formed(
    pre: CreateListing,
    price: u64,
    post: CreateListing,
    derived: Option<(Seq<u8>, u8)>,
)
    requires
        created(pre, price, post, derived),
    ensures
        post.listing.is_initialized,
        post.listing.price == price,
        price > 0,
        post.escrow_nft_account.amount == 1,
{
}

/// Creating with a zero price always fails with `InvalidPrice`, whatever the
/// rest of the request and whatever the derivation returns; the operation's
/// contract adds that on an error nothing is created or changed.
pub proof fn lemma_zero_price_rejected(pre: CreateListing, derived: Option<(Seq<u8>, u8)>)
    ensures
        create_check(pre, 0, derived) == Err::<(), SellNftError>(SellNftError::InvalidPrice),
{
}

/// After a successful creation, a second creation for the same listing entry
/// fails with `ListingAlreadyInitialized`, for any valid price and whatever
/// the derivation returns; the first listing is unaffected, since a failing
/// creation changes nothing.
pub proof fn lemma_second_create_rejected(
    pre: CreateListing,
    price: u64,
    post: CreateListing,
    derived: Option<(Seq<u8>, u8)>,
    second: CreateListing,
    second_price: u64,
    second_derived: Option<(Seq<u8>, u8)>,
)
    requires
        created(pre, price, post, derived),
        second.listing == post.listing,
        second_price > 0,
    ensures
        create_check(second, second_price, second_derived) == Err::<(), SellNftError>(
            SellNftError::ListingAlreadyInitialized,
        ),
{
}

/// A buyer whose currency balance is below the recorded price is rejected
/// with `InsufficientFunds`, however the authority recomputation turns out;
/// the operation's contract adds that on an error no currency or asset
/// moves.
pub proof fn lemma_insufficient_funds_rejected(p: Purchase, auth: Option<Seq<u8>>)
    requires
        p.listing.is_initialized,
        p.listing.seller@ == p.seller@,
        p.listing.mint@ == p.asset@,
        p.escrow_nft_account.mint@ == p.asset@,
        p.buyer_nft_account.owner@ == p.buyer@,
        p.buyer_nft_account.mint@ == p.asset@,
        p.buyer_lamports < p.listing.price,
    ensures
        purchase_check(p, auth) == Err::<(), SellNftError>(SellNftError::InsufficientFunds),
{
}

/// A cancellation by any identity other than the recorded seller is rejected
/// with `Unauthorized`, whatever the rest of the request and however the
/// authority recomputation turns out; the operation's contract adds that on
/// an error escrow and listing stay unchanged.
pub proof fn lemma_non_seller_cancel_rejected(k: Cancel, auth: Option<Seq<u8>>)
    requires
        k.listing.is_initialized,
        k.listing.seller@ != k.seller@,
    ensures
        cancel_check(k, auth) == Err::<(), SellNftError>(SellNftError::Unauthorized),
{
}

/// The authority stored at creation is the one every later operation checks
/// against: after a successful creation, the listing records the derived
/// nonce and the escrow account is owned by the derived address, so an
/// authority recomputed from the stored nonce that yields the derived
/// address — as the derivation's determinism guarantees — matches the escrow
/// account's owner exactly.
pub proof fn lemma_stored_nonce_reconstructs_authority(
    pre: CreateListing,
    price: u64,
    post: CreateListing,
    derived: Option<(Seq<u8>, u8)>,
    auth: Option<Seq<u8>>,
)
    requires
        created(pre, price, post, derived),
        auth == Some(derived.unwrap().0),
    ensures
        post.listing.bump == derived.unwrap().1,
        auth == Some(post.escrow_nft_account.owner@),
        auth == Some(pre.listing_address@),
{
}

/// Create then purchase: with the listing and escrow as created, a buyer
/// holding at least the price — and balances that fit the machine words —
/// the purchase is accepted, the buyer gains the one asset unit, the
/// seller's currency balance grows by exactly the price, and the listing
/// entry is gone afterwards.
pub proof fn lemma_create_then_purchase(
    pre: CreateListing,
    price: u64,
    mid: CreateListing,
    derived: Option<(Seq<u8>, u8)>,
    p: Purchase,
    auth: Option<Seq<u8>>,
    post: Purchase,
)
    requires
        created(pre, price, mid, derived),
        auth == Some(derived.unwrap().0),
        purchase_follows(mid, p),
        p.buyer_lamports >= price,
        p.seller_lamports + price <= u64::MAX,
        p.buyer_nft_account.amount + 1 <= u64::MAX,
        purchase_applied(p, post),
    ensures
        purchase_check(p, auth) == Ok::<(), SellNftError>(()),
        post.buyer_nft_account.amount == p.buyer_nft_account.amount + 1,
        post.seller_lamports == p.seller_lamports + price,
        post.buyer_lamports == p.buyer_lamports - price,
        !post.listing.is_initialized,
        token_account_closed(post.escrow_nft_account),
{
}

/// Create, cancel, create again: with the listing and escrow as created, the
/// recorded seller's cancellation is accepted and returns the asset; a fresh
/// creation for the same seller and asset — with the cleared entry, a fresh
/// empty escrow account owned by the same derived authority, and the
/// returned asset — is then accepted for any valid price, with no residue
/// from the first lifetime.
pub proof fn lemma_relist_after_cancel(
    pre: CreateListing,
    price: u64,
    mid: CreateListing,
    derived: Option<(Seq<u8>, u8)>,
    k: Cancel,
    auth: Option<Seq<u8>>,
    post_cancel: Cancel,
    second: CreateListing,
    second_price: u64,
)
    requires
        created(pre, price, mid, derived),
        auth == Some(derived.unwrap().0),
        cancel_follows(mid, k),
        k.seller_nft_account.amount + 1 <= u64::MAX,
        cancel_applied(k, post_cancel),
        second_price > 0,
        second.program == pre.program,
        second.seller == pre.seller,
        second.asset == pre.asset,
        second.listing_address == pre.listing_address,
        second.listing == post_cancel.listing,
        second.seller_nft_account == post_cancel.seller_nft_account,
        second.escrow_nft_account.owner@ == pre.escrow_nft_account.owner@,
        second.escrow_nft_account.mint@ == pre.escrow_nft_account.mint@,
        second.escrow_nft_account.amount == 0,
    ensures
        cancel_check(k, auth) == Ok::<(), SellNftError>(()),
        listing_cleared(post_cancel.listing),
        post_cancel.seller_nft_account.amount == k.seller_nft_account.amount + 1,
        create_check(second, second_price, derived) == Ok::<(), SellNftError>(()),
{
}

} // verus!
