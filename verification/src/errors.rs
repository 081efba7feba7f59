//! Error taxonomy of the trading core. Every error is terminal for the
//! current operation; none is retried internally.

use vstd::prelude::*;

verus! {

#[derive(Clone, Copy, Debug, PartialEq, Eq, Structural)]
pub enum MmmError {
    /// A checked arithmetic step overflowed, a computed value exceeded a
    /// declared ceiling, or a trade priced to zero.
    NumericOverflow,
    /// The pool's curve type is unrecognized.
    InvalidCurveType,
    /// The pool's curve delta is malformed for its curve type.
    InvalidCurveDelta,
    /// No allowlist entry granted eligibility, or an entry is malformed.
    InvalidAllowLists,
    /// The asset's URI does not start with the required prefix.
    UnexpectedMetadataUri,
    /// The extension-based mint account is absent or uninitialized.
    InvalidTokenMint,
    /// The mint's metadata extension does not reference the mint itself.
    InvalidTokenMetadataExtension,
    /// The mint's group-member extension is absent or inconsistent.
    InvalidTokenMemberExtension,
    /// Maker or taker referral fee is outside its allowed band.
    InvalidMakerOrTakerFeeBP,
    /// The asset declares a creator royalty above the hard ceiling.
    InvalidMetadataCreatorRoyalty,
    /// A creator account does not match the declared creator address.
    InvalidCreatorAddress,
    /// The payer cannot cover the computed royalty.
    NotEnoughBalance,
    /// A master-edition marker exists but carries no recognized version tag.
    InvalidMasterEdition,
    /// The asset is not of the required token standard.
    InvalidTokenStandard,
    /// The caller-supplied account set for a cross-program call is malformed.
    InvalidRemainingAccounts,
    /// An account is owned by the wrong program.
    AccountOwnedByWrongProgram,
    /// An account does not sit at its canonical derived address.
    ConstraintSeeds,
    /// Fewer creator accounts were supplied than creators declared.
    AccountNotEnoughKeys,
}

} // verus!
