use vstd::prelude::*;

verus! {

/// Why a bet operation was refused. Every refusal leaves all state as it was.
#[derive(Clone, Copy, Debug, PartialEq, Eq, Structural)]
pub enum CasinoError {
    /// The house-wide active flag is off.
    HouseInactive,
    /// The stake lies outside the accepted `[min, max]` range.
    InvalidBetAmount,
    /// The roulette numbers do not have the length the bet type asks for.
    InvalidBetShape,
    /// The commitment is not fresh at request time, is not the one the round
    /// was bound to, or its value has not been revealed for the current slot.
    CommitmentInvalid,
    /// The round is not waiting for settlement.
    InvalidRoundState,
    /// The stored game payload does not start with a known bet-type tag.
    CorruptPayload,
}

} // verus!
