use vstd::prelude::*;

verus! {

/// Every failure an operation of this crate can signal.
///
/// Each variant aborts the whole operation it arises in: no operation
/// commits a partial state change alongside an error.
#[derive(Clone, Copy, Debug, PartialEq, Eq, Structural)]
pub enum EditionsError {
    /// The supplied authority proof does not match the expected derivation
    /// or stored authority.
    Unauthorized,
    /// The caller is not the creator recorded on the deployment.
    InvalidCreator,
    /// A delegated signing program other than the whitelisted one was supplied.
    InvalidSignedProgram,
    /// Authority relinquishment requires every token to have been issued first.
    MintNotComplete,
    /// The token's metadata record is absent.
    MetadataNotFound,
    /// The metadata's update authority is no longer the deployment's own
    /// derived handle; it has already been changed or relinquished.
    UpdateAuthorityAlreadyChanged,
    /// A deployment already exists for this symbol.
    DuplicateSymbol,
    /// The token identity is already present in the issuance ledger.
    DuplicateToken,
    /// Every token of the deployment has already been issued.
    MintLimitExceeded,
    /// The minter has reached the phase's per-wallet cap.
    WalletCapExceeded,
    /// The phase has reached its own global cap.
    PhaseCapExceeded,
    /// The current time lies outside the phase's window.
    PhaseNotActive,
    /// The eligibility predicate rejected the minter.
    NotEligible,
    /// The requested phase index is out of bounds.
    InvalidPhaseIndex,
    /// The payer's balance does not cover the phase's price.
    InsufficientFunds,
    /// A write would reach beyond the record's allocated capacity.
    RangeOutOfBounds,
    /// The seed material exceeds the derivation primitive's length bounds.
    SeedTooLong,
}

} // verus!
