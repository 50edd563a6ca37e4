use vstd::prelude::*;

verus! {

/// The identity of a player: an address of 32 bytes.
pub type AccountId = [u8; 32];

/// A digest of 32 bytes, as a commitment is stored.
pub type Digest = [u8; 32];

/// What the host tells the game about the call being made.
#[derive(Clone, Copy, Debug, PartialEq, Eq)]
pub struct CallContext {
    /// Who makes the call.
    pub caller: AccountId,
    /// The native value attached to the call.
    pub transferred_value: u128,
    /// The block number at which the call runs.
    pub block_number: u32,
}

/// Game errors.
#[derive(Clone, Copy, Debug, PartialEq, Eq, Structural)]
pub enum GameError {
    /// The caller must match the player being added.
    CallerMustMatchNewPlayer,
    /// No more space for players to join.
    MaxPlayersReached,
    /// The fee paid to join the game is not sufficient.
    InsufficientJoiningFees,
    /// The player is already part of the game.
    PlayerAlreadyJoined,
    /// The game can only be started once, from `Initialized`.
    InvalidGameStartState,
    /// Fewer players than the configured minimum have joined.
    NotEnoughPlayers,
    /// The game is not in its `Started` state.
    GameNotStarted,
    /// There is no live round.
    NoCurrentRound,
    /// The value attached to a commitment is not the required deposit.
    InvalidRoundContribution,
    /// The live round no longer takes commitments.
    RoundClosed,
    /// The caller has already committed in the live round.
    CommitmentAlreadyMade,
    /// The revealed secret does not hash to the stored commitment.
    InvalidReveal,
    /// The caller has already revealed in the live round.
    RevealAlreadyMade,
    /// No commitment made by the caller for the live round.
    CommitmentNotFound,
    /// The round has not expired yet.
    RoundNotExpired,
    /// The round cannot be closed.
    FailedToCloseRound,
}

/// The state of the game as a whole; it only moves forward.
#[derive(Clone, Copy, Debug, PartialEq, Eq, Structural)]
pub enum GameStatus {
    Initialized,
    Started,
    Ended,
}

/// The state of one round; it only moves forward.
#[derive(Clone, Copy, Debug, PartialEq, Eq, Structural)]
pub enum RoundStatus {
    /// The commit phase is open and nobody has committed yet.
    Ready,
    /// At least one commitment was made; commitments and reveals are taken.
    Started,
    /// Every player who committed has revealed; the round awaits settlement.
    PendingRewardsClaim,
    /// The round was settled and archived.
    Ended,
}

/// One round of the game.
#[derive(Clone, Debug, PartialEq, Eq)]
pub struct GameRound {
    pub id: u32,
    pub status: RoundStatus,
    /// The commitment of each player, in the order in which they came.
    pub player_commits: Vec<(AccountId, Digest)>,
    /// The revealed `(amount, nonce)` of each player, in the order in which they came.
    pub player_reveals: Vec<(AccountId, (u128, u128))>,
    /// The value escrowed by each player when committing.
    pub player_contributions: Vec<(AccountId, u128)>,
    pub total_contribution: u128,
    pub total_reward: u128,
    /// The block at which the first commitment arrived.
    pub started_at: u32,
}

/// The settings of a game, fixed when it is created.
#[derive(Clone, Copy, Debug, PartialEq, Eq)]
pub struct GameConfigs {
    pub max_players: u8,
    pub min_players: u8,
    pub min_round_contribution: Option<u128>,
    /// Where set, every commitment must come with exactly this deposit.
    pub max_round_contribution: Option<u128>,
    pub post_round_actions: bool,
    /// The number of blocks before a round is considered stale.
    pub round_timeout: Option<u32>,
    pub max_rounds: Option<u32>,
    pub join_fee: Option<u128>,
    /// Whether a new round opens after a round is settled.
    pub is_rounds_based: bool,
}

/// The value transfers that settle a round.
#[derive(Clone, Debug, PartialEq, Eq)]
pub struct Settlement {
    /// What each player who revealed receives, in the order of the reveals.
    pub payouts: Vec<(AccountId, u128)>,
    /// What stays with the game because nobody revealed.
    pub retained: u128,
}

} // verus!
