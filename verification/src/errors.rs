//! The one error of a failed transition.

use vstd::prelude::*;

verus! {

/// Why a transition was refused. A refused transition changes no record.
#[derive(Clone, Copy, Debug, PartialEq, Eq, Structural)]
pub enum StakeError {
    /// The holder already has as many assets staked as the configuration allows.
    LimitExceeded,
    /// The asset record does not belong to the asset registry or cannot be
    /// read, or no stake record names the asset.
    InvalidAsset,
    /// The asset record is empty.
    AssetNotInitialized,
    /// The collection record does not belong to the asset registry, or the
    /// asset is not a member of the collection.
    InvalidCollection,
    /// The collection record is empty.
    CollectionNotInitialized,
    /// The holder does not own the asset, or is not the one who staked it.
    NotOwner,
    /// Less than the freeze period has passed since the asset was staked.
    FreezePeriodNotPassed,
    /// The holder has not signed, or a presented record is not at the
    /// identity that the program derives for it.
    AuthorizationMismatch,
    /// The asset is already staked.
    DuplicateRecord,
}

/// What a check of a precondition gives: nothing, or the error.
pub type Checked = Result<(), StakeError>;

/// The first of two checks that fails, if any does.
pub open spec fn both(first: Checked, second: Checked) -> Checked {
    match first {
        Ok(_) => second,
        Err(error) => Err(error),
    }
}

} // verus!
