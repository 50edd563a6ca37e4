//! A multi-round public-good contribution game: players join, pledge funds
//! into each round through a hidden commitment, reveal their pledge, and are
//! paid out from the pool of the round when it is settled.
//!
//! The host (a ledger runtime) supplies the caller, the attached value and
//! the block number of each call in a [`CallContext`], and carries out the
//! payouts that a settlement returns.

pub mod types;
pub mod commitment;
pub mod escrow;
pub mod game;
pub mod lemmas;

pub use types::{
    AccountId, CallContext, GameConfigs, GameError, GameRound, GameStatus, Digest, RoundStatus,
    Settlement,
};
pub use commitment::{commit, same_bytes32};
pub use game::GamePublicGood;
