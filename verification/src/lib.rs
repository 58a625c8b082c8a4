//! A fixed-price escrow sale of a single non-fungible asset.
//!
//! A seller locks one unit of an asset into a holding account controlled by a
//! derived, key-less authority and records a price. A buyer may then pay that
//! price and receive the asset, or the seller may cancel and reclaim it. The
//! state-transition rules, the authority derivation contract, and the error
//! taxonomy live here, fully specified; the host ledger that persists the
//! accounts and executes the resulting transfers sits outside this crate.

pub mod accounts;
pub mod authority;
pub mod errors;
pub mod keys;
pub mod laws;
pub mod protocol;

pub use accounts::ListingAccount;
pub use accounts::TokenAccount;
pub use authority::derive_listing_authority;
pub use authority::recompute_listing_authority;
pub use errors::SellNftError;
pub use keys::keys_equal;
pub use keys::zero_key;
pub use protocol::Cancel;
pub use protocol::CreateListing;
pub use protocol::Purchase;
pub use protocol::cancel;
pub use protocol::create_listing;
pub use protocol::purchase;
pub use protocol::transfer_lamports;
