//! The lifecycle of the piggy bank and the reasons a call is rejected.

use vstd::prelude::*;

verus! {

/// The persisted lifecycle of a piggy bank: a closed tag with exactly two
/// values. Once `Smashed`, the value never goes back to `Intact`.
#[derive(Clone, Copy, PartialEq, Eq, Structural, Debug)]
pub enum PiggyBankState {
    /// Funds may be deposited; smashing is permitted.
    Intact,
    /// Terminal: no further deposits or smashes are permitted.
    Smashed,
}

/// Why a `smash` was rejected, reported to the caller so tooling can branch
/// on the reason.
#[derive(Clone, Copy, PartialEq, Eq, Structural, Debug)]
pub enum SmashError {
    /// The caller is not the recognized owner identity.
    NotOwner,
    /// The piggy bank is already in the terminal state.
    AlreadySmashed,
    /// The value transfer to the owner did not succeed despite passing all
    /// prior checks; defensive, expected unreachable with a correct host.
    TransferError,
}

/// The undifferentiated rejection for a deposit into a smashed piggy bank:
/// the caller learns only that the call failed, not why, by design.
#[derive(Clone, Copy, PartialEq, Eq, Structural, Debug)]
pub struct InsertError;

} // verus!
