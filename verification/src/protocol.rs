//! The state-transition logic: the three operations that create, settle and
//! cancel a listing.
//!
//! Every operation validates all of its preconditions before it mutates
//! anything: it either applies in full or returns an error and leaves every
//! account exactly as it was. The exact outcome of each operation, error
//! included, is stated by a spec-level check and a spec-level effect
//! predicate, which the contracts tie to the executable code.

use vstd::prelude::*;

use crate::accounts::ListingAccount;
use crate::accounts::TokenAccount;
use crate::accounts::listing_cleared;
use crate::accounts::token_account_closed;
use crate::authority::listing_authority;
use crate::authority::listing_nonce_authority;
use crate::errors::SellNftError;
use crate::keys::keys_equal;
use crate::keys::zero_key;

verus! {

/// The accounts one `create_listing` call works on.
///
/// The identities and the supplied listing address are fixed by the caller;
/// the listing entry and the two holding accounts are the mutable state.
#[derive(Clone, Copy, Debug, PartialEq, Eq)]
pub struct CreateListing {
    /// The protocol identity under which authorities are derived.
    pub program: [u8; 32],
    /// The signing seller.
    pub seller: [u8; 32],
    /// The asset to be sold.
    pub asset: [u8; 32],
    /// The address at which the caller claims the listing entry lives.
    pub listing_address: [u8; 32],
    /// The listing entry at that address.
    pub listing: ListingAccount,
    /// The seller's holding account for the asset.
    pub seller_nft_account: TokenAccount,
    /// The escrow holding account that will custody the asset.
    pub escrow_nft_account: TokenAccount,
}

/// The accounts one `purchase` call works on.
#[derive(Clone, Copy, Debug, PartialEq, Eq)]
pub struct Purchase {
    /// The protocol identity under which authorities are derived.
    pub program: [u8; 32],
    /// The signing buyer.
    pub buyer: [u8; 32],
    /// The seller named by the caller; must match the recorded one.
    pub seller: [u8; 32],
    /// The asset named by the caller; must match the recorded one.
    pub asset: [u8; 32],
    /// The buyer's native-currency balance.
    pub buyer_lamports: u64,
    /// The seller's native-currency balance.
    pub seller_lamports: u64,
    /// The listing entry being settled.
    pub listing: ListingAccount,
    /// The escrow holding account custodying the asset.
    pub escrow_nft_account: TokenAccount,
    /// The buyer's holding account that will receive the asset.
    pub buyer_nft_account: TokenAccount,
}

/// The accounts one `cancel` call works on.
#[derive(Clone, Copy, Debug, PartialEq, Eq)]
pub struct Cancel {
    /// The protocol identity under which authorities are derived.
    pub program: [u8; 32],
    /// The signing caller; must be the recorded seller.
    pub seller: [u8; 32],
    /// The asset named by the caller; must match the recorded one.
    pub asset: [u8; 32],
    /// The listing entry being cancelled.
    pub listing: ListingAccount,
    /// The escrow holding account custodying the asset.
    pub escrow_nft_account: TokenAccount,
    /// The seller's holding account that will take the asset back.
    pub seller_nft_account: TokenAccount,
}

/// The outcome of the precondition checks of `create_listing`, given what the
/// authority derivation returns for `(program, seller, asset)`.
pub open spec fn create_check(
    pre: CreateListing,
    price: u64,
    derived: Option<(Seq<u8>, u8)>,
) -> Result<(), SellNftError> {
    if price == 0 {
        Err(SellNftError::InvalidPrice)
    } else if pre.listing.is_initialized {
        Err(SellNftError::ListingAlreadyInitialized)
    } else if pre.seller_nft_account.owner@ != pre.seller@ {
        Err(SellNftError::OwnerMismatch)
    } else if pre.seller_nft_account.mint@ != pre.asset@ {
        Err(SellNftError::MintMismatch)
    } else if pre.escrow_nft_account.mint@ != pre.asset@ {
        Err(SellNftError::MintMismatch)
    } else if pre.escrow_nft_account.amount != 0 {
        Err(SellNftError::EscrowAccountMustBeEmpty)
    } else if derived is None {
        Err(SellNftError::DerivationFailure)
    } else if pre.escrow_nft_account.owner@ != derived.unwrap().0 {
        Err(SellNftError::EscrowAuthorityMismatch)
    } else if pre.listing_address@ != derived.unwrap().0 {
        Err(SellNftError::ListingAddressMismatch)
    } else if pre.seller_nft_account.amount < 1 {
        Err(SellNftError::InsufficientTokenBalance)
    } else {
        Ok(())
    }
}

/// The effect of a successful `create_listing` with the derived nonce:
/// the entry becomes active with the given terms and exactly one unit moves
/// from the seller's holding account into escrow.
pub open spec fn create_applied(
    pre: CreateListing,
    price: u64,
    nonce: u8,
    post: CreateListing,
) -> bool {
    &&& post.program == pre.program
    &&& post.seller == pre.seller
    &&& post.asset == pre.asset
    &&& post.listing_address == pre.listing_address
    &&& post.listing.is_initialized
    &&& post.listing.seller@ == pre.seller@
    &&& post.listing.mint@ == pre.asset@
    &&& post.listing.price == price
    &&& post.listing.bump == nonce
    &&& post.seller_nft_account.owner == pre.seller_nft_account.owner
    &&& post.seller_nft_account.mint == pre.seller_nft_account.mint
    &&& post.seller_nft_account.amount == pre.seller_nft_account.amount - 1
    &&& post.escrow_nft_account.owner == pre.escrow_nft_account.owner
    &&& post.escrow_nft_account.mint == pre.escrow_nft_account.mint
    &&& post.escrow_nft_account.amount == 1
}

/// The outcome of the precondition checks of `purchase`, given what
/// reconstructing the authority from the stored nonce returns.
pub open spec fn purchase_check(p: Purchase, auth: Option<Seq<u8>>) -> Result<(), SellNftError> {
    if !p.listing.is_initialized {
        Err(SellNftError::ListingNotInitialized)
    } else if p.listing.seller@ != p.seller@ {
        Err(SellNftError::OwnerMismatch)
    } else if p.listing.mint@ != p.asset@ {
        Err(SellNftError::MintMismatch)
    } else if p.escrow_nft_account.mint@ != p.asset@ {
        Err(SellNftError::MintMismatch)
    } else if p.buyer_nft_account.owner@ != p.buyer@ {
        Err(SellNftError::OwnerMismatch)
    } else if p.buyer_nft_account.mint@ != p.asset@ {
        Err(SellNftError::MintMismatch)
    } else if p.buyer_lamports < p.listing.price {
        Err(SellNftError::InsufficientFunds)
    } else if p.seller_lamports + p.listing.price > u64::MAX {
        Err(SellNftError::MathOverflow)
    } else if p.escrow_nft_account.amount < 1 {
        Err(SellNftError::InsufficientTokenBalance)
    } else if auth != Some(p.escrow_nft_account.owner@) {
        Err(SellNftError::EscrowAuthorityMismatch)
    } else if p.escrow_nft_account.amount != 1 {
        Err(SellNftError::EscrowAccountMustBeEmpty)
    } else if p.buyer_nft_account.amount + 1 > u64::MAX {
        Err(SellNftError::MathOverflow)
    } else {
        Ok(())
    }
}

/// The effect of a successful `purchase`: the price moves from buyer to
/// seller, the escrowed unit moves to the buyer, the emptied escrow account
/// is destroyed, and the listing entry is cleared.
pub open spec fn purchase_applied(pre: Purchase, post: Purchase) -> bool {
    &&& post.program == pre.program
    &&& post.buyer == pre.buyer
    &&& post.seller == pre.seller
    &&& post.asset == pre.asset
    &&& post.buyer_lamports == pre.buyer_lamports - pre.listing.price
    &&& post.seller_lamports == pre.seller_lamports + pre.listing.price
    &&& listing_cleared(post.listing)
    &&& token_account_closed(post.escrow_nft_account)
    &&& post.buyer_nft_account.owner == pre.buyer_nft_account.owner
    &&& post.buyer_nft_account.mint == pre.buyer_nft_account.mint
    &&& post.buyer_nft_account.amount == pre.buyer_nft_account.amount + 1
}

/// The outcome of the precondition checks of `cancel`, given what
/// reconstructing the authority from the stored nonce returns.
pub open spec fn cancel_check(k: Cancel, auth: Option<Seq<u8>>) -> Result<(), SellNftError> {
    if !k.listing.is_initialized {
        Err(SellNftError::ListingNotInitialized)
    } else if k.listing.seller@ != k.seller@ {
        Err(SellNftError::Unauthorized)
    } else if k.listing.mint@ != k.asset@ {
        Err(SellNftError::MintMismatch)
    } else if k.escrow_nft_account.mint@ != k.asset@ {
        Err(SellNftError::MintMismatch)
    } else if k.seller_nft_account.owner@ != k.seller@ {
        Err(SellNftError::OwnerMismatch)
    } else if k.seller_nft_account.mint@ != k.asset@ {
        Err(SellNftError::MintMismatch)
    } else if k.escrow_nft_account.amount < 1 {
        Err(SellNftError::InsufficientTokenBalance)
    } else if auth != Some(k.escrow_nft_account.owner@) {
        Err(SellNftError::EscrowAuthorityMismatch)
    } else if k.escrow_nft_account.amount != 1 {
        Err(SellNftError::EscrowAccountMustBeEmpty)
    } else if k.seller_nft_account.amount + 1 > u64::MAX {
        Err(SellNftError::MathOverflow)
    } else {
        Ok(())
    }
}

/// The effect of a successful `cancel`: the escrowed unit returns to the
/// seller, the emptied escrow account is destroyed, and the listing entry is
/// cleared. No currency moves.
pub open spec fn cancel_applied(pre: Cancel, post: Cancel) -> bool {
    &&& post.program == pre.program
    &&& post.seller == pre.seller
    &&& post.asset == pre.asset
    &&& listing_cleared(post.listing)
    &&& token_account_closed(post.escrow_nft_account)
    &&& post.seller_nft_account.owner == pre.seller_nft_account.owner
    &&& post.seller_nft_account.mint == pre.seller_nft_account.mint
    &&& post.seller_nft_account.amount == pre.seller_nft_account.amount + 1
}

/// What moving `amount` of native currency between two balances yields: both
/// new balances, or the exact error when the payer is short or the payee's
/// balance would overflow.
pub open spec fn spec_transfer_lamports(
    from_balance: u64,
    to_balance: u64,
    amount: u64,
) -> Result<(u64, u64), SellNftError> {
    if from_balance < amount {
        Err(SellNftError::InsufficientFunds)
    } else if to_balance + amount > u64::MAX {
        Err(SellNftError::MathOverflow)
    } else {
        Ok(((from_balance - amount) as u64, (to_balance + amount) as u64))
    }
}

/// Moves `amount` of native currency between two balances, with checked
/// arithmetic: it never wraps, and fails without effect when the payer is
/// short or the payee's balance would overflow.
pub fn transfer_lamports(from_balance: u64, to_balance: u64, amount: u64) -> (r: Result<
    (u64, u64),
    SellNftError,
>)
    ensures
        r == spec_transfer_lamports(from_balance, to_balance, amount),
{
    if from_balance < amount {
        return Err(SellNftError::InsufficientFunds);
    }
    match to_balance.checked_add(amount) {
        None => Err(SellNftError::MathOverflow),
        Some(new_to_balance) => Ok((from_balance - amount, new_to_balance)),
    }
}

/// Creates a listing: activates the entry with the given price and the
/// derived nonce, and moves one unit of the asset from the seller's holding
/// account into escrow.
///
/// The call succeeds exactly when `create_check` accepts the request; on any
/// error nothing changes, and with a zero price the error is always
/// `InvalidPrice`. On success the stored nonce reconstructs the address that
/// owns the escrow account.
pub fn create_listing(ctx: &mut CreateListing, price: u64) -> (r: Result<(), SellNftError>)
    ensures
        ({
            let derived = listing_authority(old(ctx).program@, old(ctx).seller@, old(ctx).asset@);
            match r {
                Ok(()) => {
                    &&& create_check(*old(ctx), price, derived) == Ok::<(), SellNftError>(())
                    &&& create_applied(*old(ctx), price, derived.unwrap().1, *final(ctx))
                    &&& listing_nonce_authority(
                        old(ctx).program@,
                        old(ctx).seller@,
                        old(ctx).asset@,
                        final(ctx).listing.bump,
                    ) == Some(final(ctx).escrow_nft_account.owner@)
                },
                Err(e) => {
                    &&& create_check(*old(ctx), price, derived) == Err::<(), SellNftError>(e)
                    &&& *final(ctx) == *old(ctx)
                },
            }
        }),
{
    if price == 0 {
        return Err(SellNftError::InvalidPrice);
    }
    if ctx.listing.is_initialized {
        return Err(SellNftError::ListingAlreadyInitialized);
    }
    if !keys_equal(&ctx.seller_nft_account.owner, &ctx.seller) {
        return Err(SellNftError::OwnerMismatch);
    }
    if !keys_equal(&ctx.seller_nft_account.mint, &ctx.asset) {
        return Err(SellNftError::MintMismatch);
    }
    if !keys_equal(&ctx.escrow_nft_account.mint, &ctx.asset) {
        return Err(SellNftError::MintMismatch);
    }
    if ctx.escrow_nft_account.amount != 0 {
        return Err(SellNftError::EscrowAccountMustBeEmpty);
    }
    match crate::authority::derive_listing_authority(&ctx.program, &ctx.seller, &ctx.asset) {
        None => Err(SellNftError::DerivationFailure),
        Some((authority, nonce)) => {
            if !keys_equal(&ctx.escrow_nft_account.owner, &authority) {
                return Err(SellNftError::EscrowAuthorityMismatch);
            }
            if !keys_equal(&ctx.listing_address, &authority) {
                return Err(SellNftError::ListingAddressMismatch);
            }
            if ctx.seller_nft_account.amount < 1 {
                return Err(SellNftError::InsufficientTokenBalance);
            }
            ctx.listing.is_initialized = true;
            ctx.listing.seller = ctx.seller;
            ctx.listing.mint = ctx.asset;
            ctx.listing.price = price;
            ctx.listing.bump = nonce;
            ctx.seller_nft_account.amount = ctx.seller_nft_account.amount - 1;
            ctx.escrow_nft_account.amount = 1;
            Ok(())
        },
    }
}

/// Settles a listing: moves the price from the buyer to the seller, releases
/// the escrowed unit to the buyer, destroys the emptied escrow account, and
/// clears the listing entry.
///
/// The call succeeds exactly when `purchase_check` accepts the request, with
/// the authority reconstructed from the stored nonce; on any error nothing
/// changes, so a short buyer loses nothing and keeps nothing.
pub fn purchase(ctx: &mut Purchase) -> (r: Result<(), SellNftError>)
    ensures
        ({
            let auth = listing_nonce_authority(
                old(ctx).program@,
                old(ctx).listing.seller@,
                old(ctx).listing.mint@,
                old(ctx).listing.bump,
            );
            match r {
                Ok(()) => {
                    &&& purchase_check(*old(ctx), auth) == Ok::<(), SellNftError>(())
                    &&& purchase_applied(*old(ctx), *final(ctx))
                },
                Err(e) => {
                    &&& purchase_check(*old(ctx), auth) == Err::<(), SellNftError>(e)
                    &&& *final(ctx) == *old(ctx)
                },
            }
        }),
{
    if !ctx.listing.is_initialized {
        return Err(SellNftError::ListingNotInitialized);
    }
    if !keys_equal(&ctx.listing.seller, &ctx.seller) {
        return Err(SellNftError::OwnerMismatch);
    }
    if !keys_equal(&ctx.listing.mint, &ctx.asset) {
        return Err(SellNftError::MintMismatch);
    }
    if !keys_equal(&ctx.escrow_nft_account.mint, &ctx.asset) {
        return Err(SellNftError::MintMismatch);
    }
    if !keys_equal(&ctx.buyer_nft_account.owner, &ctx.buyer) {
        return Err(SellNftError::OwnerMismatch);
    }
    if !keys_equal(&ctx.buyer_nft_account.mint, &ctx.asset) {
        return Err(SellNftError::MintMismatch);
    }
    if ctx.buyer_lamports < ctx.listing.price {
        return Err(SellNftError::InsufficientFunds);
    }
    let moved = match transfer_lamports(ctx.buyer_lamports, ctx.seller_lamports, ctx.listing.price) {
        Err(e) => {
            return Err(e);
        },
        Ok(balances) => balances,
    };
    if ctx.escrow_nft_account.amount < 1 {
        return Err(SellNftError::InsufficientTokenBalance);
    }
    let authority = crate::authority::recompute_listing_authority(
        &ctx.program,
        &ctx.listing.seller,
        &ctx.listing.mint,
        ctx.listing.bump,
    );
    let authority_ok = match &authority {
        Some(address) => keys_equal(address, &ctx.escrow_nft_account.owner),
        None => false,
    };
    if !authority_ok {
        return Err(SellNftError::EscrowAuthorityMismatch);
    }
    if ctx.escrow_nft_account.amount != 1 {
        return Err(SellNftError::EscrowAccountMustBeEmpty);
    }
    match ctx.buyer_nft_account.amount.checked_add(1) {
        None => Err(SellNftError::MathOverflow),
        Some(new_buyer_amount) => {
            ctx.buyer_lamports = moved.0;
            ctx.seller_lamports = moved.1;
            ctx.escrow_nft_account = TokenAccount { owner: zero_key(), mint: zero_key(), amount: 0 };
            ctx.buyer_nft_account.amount = new_buyer_amount;
            ctx.listing = ListingAccount {
                is_initialized: false,
                seller: zero_key(),
                mint: zero_key(),
                price: 0,
                bump: 0,
            };
            Ok(())
        },
    }
}

/// Cancels a listing: returns the escrowed unit to the seller, destroys the
/// emptied escrow account, and clears the listing entry. Only the recorded
/// seller may cancel; no currency moves.
///
/// The call succeeds exactly when `cancel_check` accepts the request, with
/// the authority reconstructed from the stored nonce; on any error nothing
/// changes, so a stranger's attempt leaves escrow and listing untouched.
pub fn cancel(ctx: &mut Cancel) -> (r: Result<(), SellNftError>)
    ensures
        ({
            let auth = listing_nonce_authority(
                old(ctx).program@,
                old(ctx).listing.seller@,
                old(ctx).listing.mint@,
                old(ctx).listing.bump,
            );
            match r {
                Ok(()) => {
                    &&& cancel_check(*old(ctx), auth) == Ok::<(), SellNftError>(())
                    &&& cancel_applied(*old(ctx), *final(ctx))
                },
                Err(e) => {
                    &&& cancel_check(*old(ctx), auth) == Err::<(), SellNftError>(e)
                    &&& *final(ctx) == *old(ctx)
                },
            }
        }),
{
    if !ctx.listing.is_initialized {
        return Err(SellNftError::ListingNotInitialized);
    }
    if !keys_equal(&ctx.listing.seller, &ctx.seller) {
        return Err(SellNftError::Unauthorized);
    }
    if !keys_equal(&ctx.listing.mint, &ctx.asset) {
        return Err(SellNftError::MintMismatch);
    }
    if !keys_equal(&ctx.escrow_nft_account.mint, &ctx.asset) {
        return Err(SellNftError::MintMismatch);
    }
    if !keys_equal(&ctx.seller_nft_account.owner, &ctx.seller) {
        return Err(SellNftError::OwnerMismatch);
    }
    if !keys_equal(&ctx.seller_nft_account.mint, &ctx.asset) {
        return Err(SellNftError::MintMismatch);
    }
    if ctx.escrow_nft_account.amount < 1 {
        return Err(SellNftError::InsufficientTokenBalance);
    }
    let authority = crate::authority::recompute_listing_authority(
        &ctx.program,
        &ctx.listing.seller,
        &ctx.listing.mint,
        ctx.listing.bump,
    );
    let authority_ok = match &authority {
        Some(address) => keys_equal(address, &ctx.escrow_nft_account.owner),
        None => false,
    };
    if !authority_ok {
        return Err(SellNftError::EscrowAuthorityMismatch);
    }
    if ctx.escrow_nft_account.amount != 1 {
        return Err(SellNftError::EscrowAccountMustBeEmpty);
    }
    match ctx.seller_nft_account.amount.checked_add(1) {
        None => Err(SellNftError::MathOverflow),
        Some(new_seller_amount) => {
            ctx.escrow_nft_account = TokenAccount { owner: zero_key(), mint: zero_key(), amount: 0 };
            ctx.seller_nft_account.amount = new_seller_amount;
            ctx.listing = ListingAccount {
                is_initialized: false,
                seller: zero_key(),
                mint: zero_key(),
                price: 0,
                bump: 0,
            };
            Ok(())
        },
    }
}

} // verus!
