//! Round-based battle game economy engine.
//!
//! Players join timed rounds, spend a regenerating action resource ("turns")
//! on randomized battles, accumulate points and experience, and share a pooled
//! prize when the round ends. This crate holds the verified core: the round
//! lifecycle state machine, the per-player session ledger (turn economy,
//! attributes, leveling), the deterministic battle simulator, and the
//! leaderboard and prize-distribution rules.
//!
//! The surrounding substrate — account storage, token transfers, the
//! randomness oracle and the clock — is kept outside: every function here
//! works on plain values (`now` timestamps, 32-byte random buffers, account
//! ids) handed in by the caller. Where a successful operation calls for a
//! side effect (a token transfer, a randomness request), the function's
//! result says so and the caller performs it.

pub mod admin;
pub mod battle;
pub mod crank;
pub mod errors;
pub mod level;
pub mod player;
pub mod state;
