//! Error taxonomy of the game engine.
//!
//! Every operation returns one of these kinds on failure and leaves all state
//! untouched: a validation failure aborts the whole operation, no partial
//! write ever survives an error.
use vstd::prelude::*;

verus! {

/// Why an operation was refused.
#[derive(Clone, Copy, PartialEq, Eq, Structural, Debug)]
pub enum PandaBattleError {
    /// Caller identity does not match the required signer.
    Unauthorized,
    /// Invalid configuration parameter.
    InvalidConfig,
    /// Round is not active.
    RoundNotActive,
    /// Round has already ended.
    RoundAlreadyEnded,
    /// Round has not ended yet.
    RoundNotEnded,
    /// Player has not joined this round.
    NotJoined,
    /// Insufficient turns to perform this action.
    InsufficientTurns,
    /// Cannot purchase more than the per-call pack limit.
    TooManyTurns,
    /// Turn storage is full.
    TurnStorageFull,
    /// Maximum rerolls reached.
    MaxRerollsReached,
    /// Cannot battle yourself.
    CannotBattleSelf,
    /// A player record does not belong to this round.
    InvalidRound,
    /// Rewards already claimed, or payouts already processed.
    AlreadyClaimed,
    /// No rewards available.
    NoRewardsAvailable,
    /// Turn regeneration not ready yet.
    RegenNotReady,
    /// Leaderboard reveal time has not been reached yet.
    LeaderboardNotReady,
    /// Leaderboard has already been revealed.
    LeaderboardAlreadyRevealed,
    /// Leaderboard has not been revealed yet.
    LeaderboardNotRevealed,
    /// Leaderboard is empty.
    EmptyLeaderboard,
    /// Numerical overflow.
    Overflow,
    /// Numerical underflow.
    Underflow,
}

} // verus!
