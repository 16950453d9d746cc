use vstd::prelude::*;

verus! {

/// Why an operation of the sale was refused.
#[derive(Clone, Copy, Debug, PartialEq, Eq, Structural)]
pub enum RoundError {
    /// The caller is not the stored owner.
    NotAllowedOwner,
    /// A round was created out of sequence.
    InvalidRoundIndex,
    /// The round is full and cannot be followed by another.
    OverMaxSlot,
    /// The round has already finished.
    AlreadyFinish,
    /// The pool has already been claimed.
    AlreadyClaim,
    /// The current round is still being processed.
    Processing,
    /// The record was looked up before it was created.
    UninitializedAccount,
    /// The fee is not below one thousand per mille.
    MaxFeeError,
}

} // verus!
