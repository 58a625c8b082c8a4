//! The error taxonomy of the sale protocol.
//!
//! Every operation either applies in full or is rejected with one of these
//! errors and leaves all state untouched.

use vstd::prelude::*;

verus! {

/// Why an operation on a listing was rejected.
#[derive(Clone, Copy, Debug, PartialEq, Eq)]
pub enum SellNftError {
    /// The caller-supplied listing address does not match the derived one.
    ListingAddressMismatch,
    /// The listing entry is already active.
    ListingAlreadyInitialized,
    /// The listing entry is not active.
    ListingNotInitialized,
    /// A listing price must be greater than zero.
    InvalidPrice,
    /// A holding account is not owned by the expected identity.
    OwnerMismatch,
    /// The escrow holding account is not owned by the derived authority.
    EscrowAuthorityMismatch,
    /// A holding account has too few units of the asset.
    InsufficientTokenBalance,
    /// A holding account is for a different asset than the listing.
    MintMismatch,
    /// The escrow holding account must hold exactly the expected amount.
    EscrowAccountMustBeEmpty,
    /// The caller is not the recorded seller.
    Unauthorized,
    /// The buyer does not hold enough native currency.
    InsufficientFunds,
    /// A balance update would overflow.
    MathOverflow,
    /// No nonce in the byte range yields a valid derived authority.
    DerivationFailure,
}

} // verus!
