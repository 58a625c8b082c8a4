//! The persistent records the protocol works on: the listing entry and the
//! token holding accounts, modelled as plain values.

use vstd::prelude::*;

use crate::keys::zero_key_seq;

verus! {

/// The persistent record of one sale for a seller and asset pair.
///
/// The entry is either wholly active (all fields meaningful, one unit of the
/// asset under escrow) or wholly inactive (fields cleared).
#[derive(Clone, Copy, Debug, PartialEq, Eq)]
pub struct ListingAccount {
    /// Whether the listing is active.
    pub is_initialized: bool,
    /// The seller that created the listing and receives the proceeds.
    pub seller: [u8; 32],
    /// The asset held in escrow for this listing.
    pub mint: [u8; 32],
    /// The exact amount of native currency required to purchase.
    pub price: u64,
    /// The nonce under which the authority derivation succeeded at creation.
    pub bump: u8,
}

/// A holding account for units of one asset, controlled by one owner.
#[derive(Clone, Copy, Debug, PartialEq, Eq)]
pub struct TokenAccount {
    /// The identity that may move the held units.
    pub owner: [u8; 32],
    /// The asset this account holds units of.
    pub mint: [u8; 32],
    /// How many units the account holds.
    pub amount: u64,
}

/// An inactive listing entry: all fields reset to their defaults.
pub open spec fn listing_cleared(l: ListingAccount) -> bool {
    &&& !l.is_initialized
    &&& l.seller@ == zero_key_seq()
    &&& l.mint@ == zero_key_seq()
    &&& l.price == 0
    &&& l.bump == 0
}

/// A destroyed holding account: its storage is reclaimed and nothing is held.
pub open spec fn token_account_closed(t: TokenAccount) -> bool {
    &&& t.owner@ == zero_key_seq()
    &&& t.mint@ == zero_key_seq()
    &&& t.amount == 0
}

} // verus!
