//! End-to-end tests of the sale protocol on concrete identities, with the
//! real address derivation linked in.

use sell_nft::Cancel;
use sell_nft::CreateListing;
use sell_nft::ListingAccount;
use sell_nft::Purchase;
use sell_nft::SellNftError;
use sell_nft::TokenAccount;
use sell_nft::cancel;
use sell_nft::create_listing;
use sell_nft::derive_listing_authority;
use sell_nft::purchase;
use sell_nft::recompute_listing_authority;
use sell_nft::transfer_lamports;

fn program_id() -> [u8; 32] {
    [7u8; 32]
}

fn seller_id() -> [u8; 32] {
    [1u8; 32]
}

fn asset_id() -> [u8; 32] {
    [2u8; 32]
}

fn buyer_id() -> [u8; 32] {
    [4u8; 32]
}

fn authority() -> ([u8; 32], u8) {
    derive_listing_authority(&program_id(), &seller_id(), &asset_id()).expect("derivation should succeed")
}

fn empty_listing() -> ListingAccount {
    ListingAccount {
        is_initialized: false,
        seller: [0u8; 32],
        mint: [0u8; 32],
        price: 0,
        bump: 0,
    }
}

fn fresh_create() -> CreateListing {
    let (address, _) = authority();
    CreateListing {
        program: program_id(),
        seller: seller_id(),
        asset: asset_id(),
        listing_address: address,
        listing: empty_listing(),
        seller_nft_account: TokenAccount { owner: seller_id(), mint: asset_id(), amount: 1 },
        escrow_nft_account: TokenAccount { owner: address, mint: asset_id(), amount: 0 },
    }
}

fn purchase_after(created: &CreateListing, buyer_lamports: u64, seller_lamports: u64) -> Purchase {
    Purchase {
        program: created.program,
        buyer: buyer_id(),
        seller: created.seller,
        asset: created.asset,
        buyer_lamports,
        seller_lamports,
        listing: created.listing,
        escrow_nft_account: created.escrow_nft_account,
        buyer_nft_account: TokenAccount { owner: buyer_id(), mint: asset_id(), amount: 0 },
    }
}

fn cancel_after(created: &CreateListing) -> Cancel {
    Cancel {
        program: created.program,
        seller: created.seller,
        asset: created.asset,
        listing: created.listing,
        escrow_nft_account: created.escrow_nft_account,
        seller_nft_account: created.seller_nft_account,
    }
}

#[test]
fn listing_lifecycle_sale() {
    let (address, bump) = authority();
    let mut ctx = fresh_create();
    assert_eq!(create_listing(&mut ctx, 1000), Ok(()));

    assert!(ctx.listing.is_initialized);
    assert_eq!(ctx.listing.seller, seller_id());
    assert_eq!(ctx.listing.mint, asset_id());
    assert_eq!(ctx.listing.price, 1000);
    assert_eq!(ctx.listing.bump, bump);
    assert_eq!(ctx.seller_nft_account.amount, 0);
    assert_eq!(ctx.escrow_nft_account.amount, 1);
    assert_eq!(ctx.escrow_nft_account.owner, address);

    let mut sale = purchase_after(&ctx, 1500, 0);
    assert_eq!(purchase(&mut sale), Ok(()));

    assert_eq!(sale.buyer_lamports, 500);
    assert_eq!(sale.seller_lamports, 1000);
    assert_eq!(sale.buyer_nft_account.amount, 1);
    assert!(!sale.listing.is_initialized);
    assert_eq!(sale.listing.seller, [0u8; 32]);
    assert_eq!(sale.listing.price, 0);
    assert_eq!(sale.escrow_nft_account.amount, 0);
    assert_eq!(sale.escrow_nft_account.owner, [0u8; 32]);
}

#[test]
fn zero_price_rejected() {
    let mut ctx = fresh_create();
    let before = ctx;
    assert_eq!(create_listing(&mut ctx, 0), Err(SellNftError::InvalidPrice));
    assert_eq!(ctx, before);
}

#[test]
fn double_create_rejected() {
    let mut ctx = fresh_create();
    assert_eq!(create_listing(&mut ctx, 1000), Ok(()));
    let first = ctx;
    // Put a second unit in the seller's hands; the active entry must still
    // block a second listing.
    ctx.seller_nft_account.amount = 1;
    let mut second = ctx;
    assert_eq!(
        create_listing(&mut second, 2000),
        Err(SellNftError::ListingAlreadyInitialized)
    );
    assert_eq!(second.listing, first.listing);
    assert_eq!(second.escrow_nft_account, first.escrow_nft_account);
}

#[test]
fn underfunded_buyer_rejected() {
    let mut ctx = fresh_create();
    assert_eq!(create_listing(&mut ctx, 1000), Ok(()));
    let mut sale = purchase_after(&ctx, 999, 0);
    let before = sale;
    assert_eq!(purchase(&mut sale), Err(SellNftError::InsufficientFunds));
    assert_eq!(sale, before);
}

#[test]
fn stranger_cancel_rejected() {
    let mut ctx = fresh_create();
    assert_eq!(create_listing(&mut ctx, 1000), Ok(()));
    let mut request = cancel_after(&ctx);
    request.seller = [8u8; 32];
    request.seller_nft_account.owner = [8u8; 32];
    let before = request;
    assert_eq!(cancel(&mut request), Err(SellNftError::Unauthorized));
    assert_eq!(request, before);
}

#[test]
fn relist_after_cancel() {
    let (address, _) = authority();
    let mut ctx = fresh_create();
    assert_eq!(create_listing(&mut ctx, 1000), Ok(()));

    let mut request = cancel_after(&ctx);
    assert_eq!(cancel(&mut request), Ok(()));
    assert!(!request.listing.is_initialized);
    assert_eq!(request.seller_nft_account.amount, 1);
    assert_eq!(request.escrow_nft_account.amount, 0);

    // A fresh lifetime: the client funds a new escrow account for the same
    // derived authority and lists again at a new price.
    let mut again = CreateListing {
        program: program_id(),
        seller: seller_id(),
        asset: asset_id(),
        listing_address: address,
        listing: request.listing,
        seller_nft_account: request.seller_nft_account,
        escrow_nft_account: TokenAccount { owner: address, mint: asset_id(), amount: 0 },
    };
    assert_eq!(create_listing(&mut again, 2500), Ok(()));
    assert!(again.listing.is_initialized);
    assert_eq!(again.listing.price, 2500);
    assert_eq!(again.escrow_nft_account.amount, 1);
}

#[test]
fn authority_is_deterministic() {
    let first = derive_listing_authority(&program_id(), &seller_id(), &asset_id());
    let second = derive_listing_authority(&program_id(), &seller_id(), &asset_id());
    assert_eq!(first, second);

    let (address, bump) = first.expect("derivation should succeed");
    assert_eq!(recompute_listing_authority(&program_id(), &seller_id(), &asset_id(), bump), Some(address));
}

#[test]
fn wrong_nonce_fails_authority_check() {
    let (_, bump) = authority();
    let mut ctx = fresh_create();
    assert_eq!(create_listing(&mut ctx, 1000), Ok(()));

    let mut sale = purchase_after(&ctx, 1500, 0);
    sale.listing.bump = bump.wrapping_add(1);
    assert_eq!(purchase(&mut sale), Err(SellNftError::EscrowAuthorityMismatch));

    // Directly: a wrong nonce never reconstructs the stored authority.
    let wrong = recompute_listing_authority(&program_id(), &seller_id(), &asset_id(), bump.wrapping_add(1));
    assert_ne!(wrong, Some(ctx.escrow_nft_account.owner));
}

#[test]
fn derived_address_is_none_of_the_inputs() {
    let (address, _) = authority();
    assert_ne!(address, program_id());
    assert_ne!(address, seller_id());
    assert_ne!(address, asset_id());
}

#[test]
fn create_listing_address_mismatch() {
    let mut ctx = fresh_create();
    ctx.listing_address = [9u8; 32];
    let before = ctx;
    assert_eq!(create_listing(&mut ctx, 1000), Err(SellNftError::ListingAddressMismatch));
    assert_eq!(ctx, before);
}

#[test]
fn create_escrow_authority_mismatch() {
    let mut ctx = fresh_create();
    ctx.escrow_nft_account.owner = seller_id();
    assert_eq!(create_listing(&mut ctx, 1000), Err(SellNftError::EscrowAuthorityMismatch));
}

#[test]
fn create_escrow_not_empty() {
    let mut ctx = fresh_create();
    ctx.escrow_nft_account.amount = 1;
    assert_eq!(create_listing(&mut ctx, 1000), Err(SellNftError::EscrowAccountMustBeEmpty));
}

#[test]
fn create_seller_short_of_asset() {
    let mut ctx = fresh_create();
    ctx.seller_nft_account.amount = 0;
    assert_eq!(create_listing(&mut ctx, 1000), Err(SellNftError::InsufficientTokenBalance));
}

#[test]
fn create_holding_account_owner_mismatch() {
    let mut ctx = fresh_create();
    ctx.seller_nft_account.owner = buyer_id();
    assert_eq!(create_listing(&mut ctx, 1000), Err(SellNftError::OwnerMismatch));
}

#[test]
fn create_holding_account_mint_mismatch() {
    let mut ctx = fresh_create();
    ctx.seller_nft_account.mint = [5u8; 32];
    assert_eq!(create_listing(&mut ctx, 1000), Err(SellNftError::MintMismatch));
}

#[test]
fn purchase_inactive_listing_rejected() {
    let ctx = fresh_create();
    let mut sale = purchase_after(&ctx, 1500, 0);
    assert_eq!(purchase(&mut sale), Err(SellNftError::ListingNotInitialized));
}

#[test]
fn purchase_wrong_seller_rejected() {
    let mut ctx = fresh_create();
    assert_eq!(create_listing(&mut ctx, 1000), Ok(()));
    let mut sale = purchase_after(&ctx, 1500, 0);
    sale.seller = buyer_id();
    assert_eq!(purchase(&mut sale), Err(SellNftError::OwnerMismatch));
}

#[test]
fn purchase_wrong_asset_rejected() {
    let mut ctx = fresh_create();
    assert_eq!(create_listing(&mut ctx, 1000), Ok(()));
    let mut sale = purchase_after(&ctx, 1500, 0);
    sale.asset = [5u8; 32];
    assert_eq!(purchase(&mut sale), Err(SellNftError::MintMismatch));
}

#[test]
fn purchase_seller_balance_overflow_rejected() {
    let mut ctx = fresh_create();
    assert_eq!(create_listing(&mut ctx, 1000), Ok(()));
    let mut sale = purchase_after(&ctx, 1500, u64::MAX);
    let before = sale;
    assert_eq!(purchase(&mut sale), Err(SellNftError::MathOverflow));
    assert_eq!(sale, before);
}

#[test]
fn purchase_buyer_holding_overflow_rejected() {
    let mut ctx = fresh_create();
    assert_eq!(create_listing(&mut ctx, 1000), Ok(()));
    let mut sale = purchase_after(&ctx, 1500, 0);
    sale.buyer_nft_account.amount = u64::MAX;
    assert_eq!(purchase(&mut sale), Err(SellNftError::MathOverflow));
}

#[test]
fn purchase_empty_escrow_rejected() {
    let mut ctx = fresh_create();
    assert_eq!(create_listing(&mut ctx, 1000), Ok(()));
    let mut sale = purchase_after(&ctx, 1500, 0);
    sale.escrow_nft_account.amount = 0;
    assert_eq!(purchase(&mut sale), Err(SellNftError::InsufficientTokenBalance));
}

#[test]
fn purchase_overfilled_escrow_rejected() {
    let mut ctx = fresh_create();
    assert_eq!(create_listing(&mut ctx, 1000), Ok(()));
    let mut sale = purchase_after(&ctx, 1500, 0);
    sale.escrow_nft_account.amount = 2;
    assert_eq!(purchase(&mut sale), Err(SellNftError::EscrowAccountMustBeEmpty));
}

#[test]
fn cancel_inactive_listing_rejected() {
    let ctx = fresh_create();
    let mut request = cancel_after(&ctx);
    assert_eq!(cancel(&mut request), Err(SellNftError::ListingNotInitialized));
}

#[test]
fn transfer_lamports_exact() {
    assert_eq!(transfer_lamports(1500, 100, 1000), Ok((500, 1100)));
    assert_eq!(transfer_lamports(1000, 0, 1000), Ok((0, 1000)));
    assert_eq!(transfer_lamports(999, 0, 1000), Err(SellNftError::InsufficientFunds));
    assert_eq!(transfer_lamports(1000, u64::MAX, 1), Err(SellNftError::MathOverflow));
}
