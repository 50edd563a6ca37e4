use vstd::prelude::*;
use crate::commitment::{commit, commitment_of, same_bytes32};
use crate::escrow::{
    has_player, lemma_sum_push, players_unique, position_of, settle, settles, sum_values,
};
use crate::types::{
    AccountId, CallContext, Digest, GameConfigs, GameError, GameRound, GameStatus, RoundStatus,
    Settlement,
};

verus! {

/// The number of blocks after which a round may be force-completed when the
/// configuration sets no timeout.
pub const DEFAULT_ROUND_TIMEOUT: u32 = 10;

/// A single game instance: its players, its rounds and its settings.
pub struct GamePublicGood {
    players: Vec<AccountId>,
    status: GameStatus,
    rounds: Vec<GameRound>,
    current_round: Option<GameRound>,
    next_round_id: u32,
    configs: GameConfigs,
}

/// Whether `r` is a round that was just opened with the given `id`.
pub open spec fn is_fresh_round(r: GameRound, id: u32) -> bool {
    &&& r.id == id
    &&& r.status == RoundStatus::Ready
    &&& r.player_commits@.len() == 0
    &&& r.player_reveals@.len() == 0
    &&& r.player_contributions@.len() == 0
    &&& r.total_contribution == 0
    &&& r.total_reward == 0
}

/// The bookkeeping of a round's escrow: one contribution per commitment, in
/// the same order, adding up to the round's total.
pub open spec fn escrow_wf(r: GameRound) -> bool {
    &&& r.player_contributions@.len() == r.player_commits@.len()
    &&& forall|i: int| 0 <= i < r.player_commits@.len()
        ==> #[trigger] r.player_contributions@[i].0 == r.player_commits@[i].0
    &&& sum_values(r.player_contributions@) == r.total_contribution
}

/// The invariant of a round: commitments and reveals are one per player, and
/// only a player who committed has revealed, and a round with a commitment
/// has left `Ready`.
pub open spec fn round_wf(r: GameRound) -> bool {
    &&& escrow_wf(r)
    &&& r.player_commits@.len() > 0 ==> r.status != RoundStatus::Ready
    &&& players_unique(r.player_commits@)
    &&& players_unique(r.player_reveals@)
    &&& forall|i: int| 0 <= i < r.player_reveals@.len()
        ==> has_player(r.player_commits@, #[trigger] r.player_reveals@[i].0)
}

/// Whether every player of `s` is distinct.
pub open spec fn distinct(s: Seq<AccountId>) -> bool {
    forall|i: int, j: int| 0 <= i < j < s.len() ==> s[i] != s[j]
}

/// Whether a deposit of `value` is what `configs` asks of a commitment.
pub open spec fn deposit_ok(configs: GameConfigs, value: u128) -> bool {
    &&& configs.min_round_contribution matches Some(min) ==> value >= min
    &&& configs.max_round_contribution matches Some(max) ==> value == max
}

/// The number of blocks after which a round of a game with `configs` expires.
pub open spec fn timeout_of(configs: GameConfigs) -> u32 {
    match configs.round_timeout {
        Some(t) => t,
        None => DEFAULT_ROUND_TIMEOUT,
    }
}

/// Whether `a` and `b` hold the same round.
pub open spec fn same_round(a: GameRound, b: GameRound) -> bool {
    &&& a.id == b.id
    &&& a.status == b.status
    &&& a.player_commits@ == b.player_commits@
    &&& a.player_reveals@ == b.player_reveals@
    &&& a.player_contributions@ == b.player_contributions@
    &&& a.total_contribution == b.total_contribution
    &&& a.total_reward == b.total_reward
    &&& a.started_at == b.started_at
}

fn copy_entries<V: Copy>(s: &Vec<(AccountId, V)>) -> (r: Vec<(AccountId, V)>)
    ensures
        r@ == s@,
{
    let mut r: Vec<(AccountId, V)> = Vec::new();
    let mut i: usize = 0;
    while i < s.len()
        invariant
            i <= s@.len(),
            r@ == s@.subrange(0, i as int),
        decreases s@.len() - i,
    {
        r.push(s[i]);
        i = i + 1;
        assert(r@ =~= s@.subrange(0, i as int));
    }
    assert(r@ =~= s@);
    r
}

impl GamePublicGood {
    /// The players, in the order in which they joined.
    pub closed spec fn player_list(&self) -> Seq<AccountId> {
        self.players@
    }

    /// The state of the game.
    pub closed spec fn game_status(&self) -> GameStatus {
        self.status
    }

    /// The settled rounds, oldest first.
    pub closed spec fn history(&self) -> Seq<GameRound> {
        self.rounds@
    }

    /// The live round, if any.
    pub closed spec fn live_round(&self) -> Option<GameRound> {
        self.current_round
    }

    /// The id that the next round opened will get.
    pub closed spec fn next_id(&self) -> u32 {
        self.next_round_id
    }

    /// The settings the game was created with.
    pub closed spec fn settings(&self) -> GameConfigs {
        self.configs
    }

    /// The invariant of a game.
    pub open spec fn wf(&self) -> bool {
        &&& self.player_list().len() <= self.settings().max_players
        &&& distinct(self.player_list())
        &&& self.game_status() == GameStatus::Initialized ==> {
            &&& self.live_round() is None
            &&& self.history().len() == 0
            &&& self.next_id() == 1
        }
        &&& self.game_status() == GameStatus::Ended ==> self.live_round() is None
        &&& self.live_round() matches Some(r) ==> {
            &&& self.game_status() == GameStatus::Started
            &&& r.status != RoundStatus::Ended
            &&& round_wf(r)
            &&& r.id < self.next_id()
            &&& forall|i: int| 0 <= i < self.history().len() ==> #[trigger] self.history()[i].id < r.id
        }
        &&& forall|i: int| 0 <= i < self.history().len() ==> {
            &&& #[trigger] self.history()[i].id < self.next_id()
            &&& self.history()[i].status == RoundStatus::Ended
            &&& escrow_wf(self.history()[i])
        }
        &&& forall|i: int, j: int|
            #![trigger self.history()[i], self.history()[j]]
            0 <= i < j < self.history().len() ==> self.history()[i].id < self.history()[j].id
    }

    /// Creates a game with the given settings, with no players and no round.
    pub fn new(configs: GameConfigs) -> (g: Self)
        ensures
            g.wf(),
            g.settings() == configs,
            g.player_list().len() == 0,
            g.game_status() == GameStatus::Initialized,
            g.live_round() is None,
            g.history().len() == 0,
            g.next_id() == 1,
    {
        GamePublicGood {
            players: Vec::new(),
            status: GameStatus::Initialized,
            rounds: Vec::new(),
            current_round: None,
            next_round_id: 1,
            configs,
        }
    }

    /// Creates a game for two to ten players with a fixed deposit of 1000 per
    /// commitment.
    pub fn default() -> (g: Self)
        ensures
            g.wf(),
            g.settings() == (GameConfigs {
                max_players: 10,
                min_players: 2,
                min_round_contribution: None,
                max_round_contribution: Some(1000),
                post_round_actions: false,
                round_timeout: None,
                max_rounds: None,
                join_fee: None,
                is_rounds_based: false,
            }),
            g.player_list().len() == 0,
            g.game_status() == GameStatus::Initialized,
            g.live_round() is None,
            g.history().len() == 0,
    {
        Self::new(GameConfigs {
            max_players: 10,
            min_players: 2,
            min_round_contribution: None,
            max_round_contribution: Some(1000),
            post_round_actions: false,
            round_timeout: None,
            max_rounds: None,
            join_fee: None,
            is_rounds_based: false,
        })
    }

    /// The error that `join` gives for `player` called with `ctx`, if any.
    pub open spec fn join_error(&self, ctx: CallContext, player: AccountId) -> Option<GameError> {
        if ctx.caller != player {
            Some(GameError::CallerMustMatchNewPlayer)
        } else if self.player_list().len() >= self.settings().max_players {
            Some(GameError::MaxPlayersReached)
        } else if self.settings().join_fee matches Some(fee) && ctx.transferred_value < fee {
            Some(GameError::InsufficientJoiningFees)
        } else if self.player_list().contains(player) {
            Some(GameError::PlayerAlreadyJoined)
        } else {
            None
        }
    }

    fn is_player(&self, p: &AccountId) -> (r: bool)
        ensures
            r == self.player_list().contains(*p),
    {
        let mut i: usize = 0;
        while i < self.players.len()
            invariant
                i <= self.players@.len(),
                forall|j: int| 0 <= j < i ==> self.players@[j] != *p,
            decreases self.players@.len() - i,
        {
            if same_bytes32(&self.players[i], p) {
                return true;
            }
            i = i + 1;
        }
        false
    }

    /// Adds the caller to the game as `player`, and returns the number of
    /// players. A player may only add themselves, and only once.
    pub fn join(&mut self, ctx: &CallContext, player: AccountId) -> (r: Result<u8, GameError>)
        requires
            old(self).wf(),
        ensures
            final(self).wf(),
            match old(self).join_error(*ctx, player) {
                Some(e) => r == Err::<u8, GameError>(e) && *final(self) == *old(self),
                None => {
                    &&& final(self).player_list() == old(self).player_list().push(player)
                    &&& r == Ok::<u8, GameError>(final(self).player_list().len() as u8)
                    &&& final(self).game_status() == old(self).game_status()
                    &&& final(self).live_round() == old(self).live_round()
                    &&& final(self).history() == old(self).history()
                    &&& final(self).next_id() == old(self).next_id()
                    &&& final(self).settings() == old(self).settings()
                },
            },
    {
        if !same_bytes32(&ctx.caller, &player) {
            return Err(GameError::CallerMustMatchNewPlayer);
        }
        if self.players.len() >= self.configs.max_players as usize {
            return Err(GameError::MaxPlayersReached);
        }
        if let Some(fee) = self.configs.join_fee {
            if ctx.transferred_value < fee {
                return Err(GameError::InsufficientJoiningFees);
            }
        }
        if self.is_player(&player) {
            return Err(GameError::PlayerAlreadyJoined);
        }
        self.players.push(player);
        proof {
            assert(distinct(self.players@)) by {
                assert forall|i: int, j: int| 0 <= i < j < self.players@.len()
                    implies self.players@[i] != self.players@[j] by {
                    if j == self.players@.len() - 1 {
                        assert(old(self).players@.contains(self.players@[i]));
                    }
                }
            }
        }
        Ok(self.players.len() as u8)
    }

    /// The error that `start_game` gives, if any.
    pub open spec fn start_error(&self) -> Option<GameError> {
        if self.game_status() != GameStatus::Initialized {
            Some(GameError::InvalidGameStartState)
        } else if self.player_list().len() < self.settings().min_players {
            Some(GameError::NotEnoughPlayers)
        } else {
            None
        }
    }

    /// Starts the game and opens its first round.
    pub fn start_game(&mut self) -> (r: Result<(), GameError>)
        requires
            old(self).wf(),
        ensures
            final(self).wf(),
            match old(self).start_error() {
                Some(e) => r == Err::<(), GameError>(e) && *final(self) == *old(self),
                None => {
                    &&& r is Ok
                    &&& final(self).game_status() == GameStatus::Started
                    &&& final(self).live_round() matches Some(round)
                        && is_fresh_round(round, old(self).next_id())
                    &&& final(self).next_id() == old(self).next_id() + 1
                    &&& final(self).player_list() == old(self).player_list()
                    &&& final(self).history() == old(self).history()
                    &&& final(self).settings() == old(self).settings()
                },
            },
    {
        if self.status != GameStatus::Initialized {
            return Err(GameError::InvalidGameStartState);
        }
        if self.players.len() < self.configs.min_players as usize {
            return Err(GameError::NotEnoughPlayers);
        }
        self.current_round = Some(GameRound {
            id: self.next_round_id,
            status: RoundStatus::Ready,
            player_commits: Vec::new(),
            player_reveals: Vec::new(),
            player_contributions: Vec::new(),
            total_contribution: 0,
            total_reward: 0,
            started_at: 0,
        });
        self.status = GameStatus::Started;
        self.next_round_id = self.next_round_id + 1;
        Ok(())
    }

    /// Whether `g` is this game with only its live round changed.
    pub open spec fn same_but_round(&self, g: GamePublicGood) -> bool {
        &&& g.player_list() == self.player_list()
        &&& g.game_status() == self.game_status()
        &&& g.history() == self.history()
        &&& g.next_id() == self.next_id()
        &&& g.settings() == self.settings()
    }

    /// The error that `play_round` gives for a call with `ctx`, if any.
    pub open spec fn play_error(&self, ctx: CallContext) -> Option<GameError> {
        if self.game_status() != GameStatus::Started {
            Some(GameError::GameNotStarted)
        } else if self.live_round() is None {
            Some(GameError::NoCurrentRound)
        } else {
            let r = self.live_round()->Some_0;
            if !(r.status == RoundStatus::Ready || r.status == RoundStatus::Started) {
                Some(GameError::RoundClosed)
            } else if !deposit_ok(self.settings(), ctx.transferred_value) {
                Some(GameError::InvalidRoundContribution)
            } else if has_player(r.player_commits@, ctx.caller) {
                Some(GameError::CommitmentAlreadyMade)
            } else if r.total_contribution + ctx.transferred_value > u128::MAX {
                Some(GameError::InvalidRoundContribution)
            } else {
                None
            }
        }
    }

    /// Records the caller's `commitment` to the live round, with the value
    /// attached to the call as its escrowed deposit.
    pub fn play_round(&mut self, ctx: &CallContext, commitment: Digest) -> (r: Result<(), GameError>)
        requires
            old(self).wf(),
        ensures
            final(self).wf(),
            match old(self).play_error(*ctx) {
                Some(e) => r == Err::<(), GameError>(e) && *final(self) == *old(self),
                None => {
                    let before = old(self).live_round()->Some_0;
                    let after = final(self).live_round()->Some_0;
                    &&& r is Ok
                    &&& old(self).same_but_round(*final(self))
                    &&& final(self).live_round() is Some
                    &&& after.id == before.id
                    &&& after.status == RoundStatus::Started
                    &&& after.player_commits@ == before.player_commits@.push((ctx.caller, commitment))
                    &&& after.player_contributions@
                        == before.player_contributions@.push((ctx.caller, ctx.transferred_value))
                    &&& after.total_contribution == before.total_contribution + ctx.transferred_value
                    &&& after.player_reveals@ == before.player_reveals@
                    &&& after.total_reward == before.total_reward
                    &&& after.started_at == if before.status == RoundStatus::Ready {
                        ctx.block_number
                    } else {
                        before.started_at
                    }
                },
            },
    {
        if self.status != GameStatus::Started {
            return Err(GameError::GameNotStarted);
        }
        let value = ctx.transferred_value;
        match &self.current_round {
            None => {
                return Err(GameError::NoCurrentRound);
            },
            Some(round) => {
                if !(round.status == RoundStatus::Ready || round.status == RoundStatus::Started) {
                    return Err(GameError::RoundClosed);
                }
                if let Some(min) = self.configs.min_round_contribution {
                    if value < min {
                        return Err(GameError::InvalidRoundContribution);
                    }
                }
                if let Some(max) = self.configs.max_round_contribution {
                    if value != max {
                        return Err(GameError::InvalidRoundContribution);
                    }
                }
                if position_of(&round.player_commits, &ctx.caller).is_some() {
                    return Err(GameError::CommitmentAlreadyMade);
                }
                if round.total_contribution > u128::MAX - value {
                    return Err(GameError::InvalidRoundContribution);
                }
            },
        }
        let mut slot: Option<GameRound> = None;
        std::mem::swap(&mut self.current_round, &mut slot);
        let mut round = slot.unwrap();
        let ghost before = round;
        if round.status == RoundStatus::Ready {
            round.started_at = ctx.block_number;
        }
        round.status = RoundStatus::Started;
        round.player_commits.push((ctx.caller, commitment));
        proof {
            lemma_sum_push(round.player_contributions@, (ctx.caller, value));
        }
        round.player_contributions.push((ctx.caller, value));
        round.total_contribution = round.total_contribution + value;
        proof {
            assert(players_unique(round.player_commits@));
            assert forall|i: int| 0 <= i < round.player_reveals@.len()
                implies has_player(round.player_commits@, #[trigger] round.player_reveals@[i].0) by {
                let k = choose|k: int| 0 <= k < before.player_commits@.len()
                    && before.player_commits@[k].0 == round.player_reveals@[i].0;
                assert(round.player_commits@[k] == before.player_commits@[k]);
            }
        }
        self.current_round = Some(round);
        Ok(())
    }

    /// The error that a reveal by `ctx.caller` of a secret whose commitment
    /// is `digest` gives, if any.
    pub open spec fn reveal_error(&self, ctx: CallContext, digest: Seq<u8>) -> Option<GameError> {
        if self.game_status() != GameStatus::Started {
            Some(GameError::GameNotStarted)
        } else if self.live_round() is None {
            Some(GameError::NoCurrentRound)
        } else {
            let r = self.live_round()->Some_0;
            if !has_player(r.player_commits@, ctx.caller) {
                Some(GameError::CommitmentNotFound)
            } else if !(exists|i: int| 0 <= i < r.player_commits@.len()
                && #[trigger] r.player_commits@[i].0 == ctx.caller && r.player_commits@[i].1@ == digest) {
                Some(GameError::InvalidReveal)
            } else if has_player(r.player_reveals@, ctx.caller) {
                Some(GameError::RevealAlreadyMade)
            } else {
                None
            }
        }
    }

    /// Whether `after` is the live round `before` once `caller` revealed `secret`.
    pub open spec fn revealed(before: GameRound, after: GameRound, caller: AccountId, secret: (u128, u128)) -> bool {
        &&& after.id == before.id
        &&& after.player_reveals@ == before.player_reveals@.push((caller, secret))
        &&& after.status == if after.player_reveals@.len() == before.player_commits@.len() {
            RoundStatus::PendingRewardsClaim
        } else {
            before.status
        }
        &&& after.player_commits@ == before.player_commits@
        &&& after.player_contributions@ == before.player_contributions@
        &&& after.total_contribution == before.total_contribution
        &&& after.total_reward == before.total_reward
        &&& after.started_at == before.started_at
    }

    /// Records the caller's reveal of `secret`, given `digest`, the commitment
    /// that `secret` hashes to. The reveal is taken where the caller committed
    /// to exactly `digest` in the live round and has not revealed yet.
    pub fn reveal_with_digest(&mut self, ctx: &CallContext, secret: (u128, u128), digest: Digest) -> (r: Result<(), GameError>)
        requires
            old(self).wf(),
        ensures
            final(self).wf(),
            match old(self).reveal_error(*ctx, digest@) {
                Some(e) => r == Err::<(), GameError>(e) && *final(self) == *old(self),
                None => {
                    &&& r is Ok
                    &&& old(self).same_but_round(*final(self))
                    &&& final(self).live_round() is Some
                    &&& Self::revealed(old(self).live_round()->Some_0, final(self).live_round()->Some_0, ctx.caller, secret)
                },
            },
    {
        if self.status != GameStatus::Started {
            return Err(GameError::GameNotStarted);
        }
        match &self.current_round {
            None => {
                return Err(GameError::NoCurrentRound);
            },
            Some(round) => {
                match position_of(&round.player_commits, &ctx.caller) {
                    None => {
                        return Err(GameError::CommitmentNotFound);
                    },
                    Some(i) => {
                        if !same_bytes32(&round.player_commits[i].1, &digest) {
                            return Err(GameError::InvalidReveal);
                        }
                    },
                }
                if position_of(&round.player_reveals, &ctx.caller).is_some() {
                    return Err(GameError::RevealAlreadyMade);
                }
            },
        }
        let mut slot: Option<GameRound> = None;
        std::mem::swap(&mut self.current_round, &mut slot);
        let mut round = slot.unwrap();
        let ghost before = round;
        round.player_reveals.push((ctx.caller, secret));
        if round.player_reveals.len() == round.player_commits.len() {
            round.status = RoundStatus::PendingRewardsClaim;
        }
        proof {
            assert(players_unique(round.player_reveals@));
            assert(has_player(round.player_commits@, ctx.caller));
            assert forall|i: int| 0 <= i < round.player_reveals@.len()
                implies has_player(round.player_commits@, #[trigger] round.player_reveals@[i].0) by {
                if i < before.player_reveals@.len() {
                    assert(round.player_reveals@[i] == before.player_reveals@[i]);
                }
            }
        }
        self.current_round = Some(round);
        Ok(())
    }

    /// Records the caller's reveal of `secret`, an `(amount, nonce)` pair,
    /// checked against the commitment the caller made in the live round.
    pub fn reveal_round(&mut self, ctx: &CallContext, secret: (u128, u128)) -> (r: Result<(), GameError>)
        requires
            old(self).wf(),
        ensures
            final(self).wf(),
            match old(self).reveal_error(*ctx, commitment_of(secret.0, secret.1)) {
                Some(e) => r == Err::<(), GameError>(e) && *final(self) == *old(self),
                None => {
                    &&& r is Ok
                    &&& old(self).same_but_round(*final(self))
                    &&& final(self).live_round() is Some
                    &&& Self::revealed(old(self).live_round()->Some_0, final(self).live_round()->Some_0, ctx.caller, secret)
                },
            },
    {
        let digest = commit(secret.0, secret.1);
        self.reveal_with_digest(ctx, secret, digest)
    }

    /// Whether a new round opens once the live round is settled: the game is
    /// played in rounds, the round cap (counting the live round) is not
    /// reached, and ids remain.
    pub open spec fn continues(&self) -> bool {
        &&& self.settings().is_rounds_based
        &&& self.settings().max_rounds matches Some(m) ==> self.history().len() + 1 < m
        &&& self.next_id() < u32::MAX
    }

    /// Whether `h` is the round `r` settled with `reward` paid out.
    pub open spec fn archived_as(h: GameRound, r: GameRound, reward: int) -> bool {
        &&& h.id == r.id
        &&& h.status == RoundStatus::Ended
        &&& h.player_commits == r.player_commits
        &&& h.player_reveals == r.player_reveals
        &&& h.player_contributions == r.player_contributions
        &&& h.total_contribution == r.total_contribution
        &&& h.total_reward == reward
        &&& h.started_at == r.started_at
    }

    /// Whether `after` is this game once its live round was settled by `s`
    /// among the players who revealed, archived, and replaced by the next
    /// round or, where the game does not go on, by none.
    pub open spec fn closed_by(&self, after: GamePublicGood, s: Settlement) -> bool {
        let r = self.live_round()->Some_0;
        &&& settles(s, r.player_reveals@, r.total_contribution)
        &&& sum_values(s.payouts@) + s.retained == r.total_contribution
        &&& after.history().len() == self.history().len() + 1
        &&& after.history().drop_last() == self.history()
        &&& Self::archived_as(after.history().last(), r, r.total_contribution - s.retained)
        &&& after.player_list() == self.player_list()
        &&& after.settings() == self.settings()
        &&& if self.continues() {
            &&& after.game_status() == GameStatus::Started
            &&& after.live_round() matches Some(n) && is_fresh_round(n, self.next_id())
            &&& after.next_id() == self.next_id() + 1
        } else {
            &&& after.game_status() == GameStatus::Ended
            &&& after.live_round() is None
            &&& after.next_id() == self.next_id()
        }
    }

    fn close_live_round(&mut self) -> (s: Settlement)
        requires
            old(self).wf(),
            old(self).live_round() is Some,
        ensures
            final(self).wf(),
            old(self).closed_by(*final(self), s),
    {
        let mut slot: Option<GameRound> = None;
        std::mem::swap(&mut self.current_round, &mut slot);
        let mut round = slot.unwrap();
        let s = settle(&round.player_reveals, round.total_contribution);
        round.status = RoundStatus::Ended;
        round.total_reward = round.total_contribution - s.retained;
        let id = round.id;
        let ghost old_rounds = self.rounds@;
        self.rounds.push(round);
        assert(self.rounds@.drop_last() =~= old_rounds);
        assert forall|i: int| 0 <= i < self.rounds@.len() implies {
            &&& #[trigger] self.rounds@[i].id < self.next_round_id
            &&& self.rounds@[i].status == RoundStatus::Ended
            &&& escrow_wf(self.rounds@[i])
        } by {
            if i < old_rounds.len() {
                assert(self.rounds@[i] == old_rounds[i]);
            }
        }
        assert forall|i: int, j: int| 0 <= i < j < self.rounds@.len()
            implies self.rounds@[i].id < self.rounds@[j].id by {
            assert(self.rounds@[i] == old_rounds[i]);
            if j < old_rounds.len() {
                assert(self.rounds@[j] == old_rounds[j]);
            }
        }
        let go_on = self.configs.is_rounds_based && match self.configs.max_rounds {
            Some(m) => (self.rounds.len() as u64) < m as u64,
            None => true,
        } && self.next_round_id < u32::MAX;
        if go_on {
            self.current_round = Some(GameRound {
                id: self.next_round_id,
                status: RoundStatus::Ready,
                player_commits: Vec::new(),
                player_reveals: Vec::new(),
                player_contributions: Vec::new(),
                total_contribution: 0,
                total_reward: 0,
                started_at: 0,
            });
            self.next_round_id = self.next_round_id + 1;
            assert(sum_values(Seq::<(AccountId, u128)>::empty()) == 0);
        } else {
            self.status = GameStatus::Ended;
        }
        s
    }

    /// The error that `complete_round` gives, if any.
    pub open spec fn complete_error(&self) -> Option<GameError> {
        if self.game_status() != GameStatus::Started {
            Some(GameError::GameNotStarted)
        } else if self.live_round() is None {
            Some(GameError::NoCurrentRound)
        } else if self.live_round()->Some_0.status != RoundStatus::PendingRewardsClaim {
            Some(GameError::FailedToCloseRound)
        } else {
            None
        }
    }

    /// Settles the live round once every player who committed has revealed,
    /// and returns the payouts that the host is to make.
    pub fn complete_round(&mut self) -> (r: Result<Settlement, GameError>)
        requires
            old(self).wf(),
        ensures
            final(self).wf(),
            match old(self).complete_error() {
                Some(e) => r == Err::<Settlement, GameError>(e) && *final(self) == *old(self),
                None => r matches Ok(s) && old(self).closed_by(*final(self), s),
            },
    {
        if self.status != GameStatus::Started {
            return Err(GameError::GameNotStarted);
        }
        match &self.current_round {
            None => {
                return Err(GameError::NoCurrentRound);
            },
            Some(round) => {
                if round.status != RoundStatus::PendingRewardsClaim {
                    return Err(GameError::FailedToCloseRound);
                }
            },
        }
        Ok(self.close_live_round())
    }

    /// Whether the live round `r` has expired at `block`.
    pub open spec fn expired(&self, r: GameRound, block: u32) -> bool {
        block >= r.started_at + timeout_of(self.settings())
    }

    /// The error that `force_complete_round` gives for a call with `ctx`, if any.
    pub open spec fn force_error(&self, ctx: CallContext) -> Option<GameError> {
        if self.game_status() != GameStatus::Started {
            Some(GameError::GameNotStarted)
        } else if self.live_round() is None {
            Some(GameError::NoCurrentRound)
        } else {
            let r = self.live_round()->Some_0;
            if !(r.status == RoundStatus::Started || r.status == RoundStatus::PendingRewardsClaim) {
                Some(GameError::FailedToCloseRound)
            } else if !has_player(r.player_commits@, ctx.caller) {
                Some(GameError::CommitmentNotFound)
            } else if !self.expired(r, ctx.block_number) {
                Some(GameError::RoundNotExpired)
            } else {
                None
            }
        }
    }

    /// Settles the live round among the players who have revealed so far,
    /// once it has expired. Only a player who committed in the round may do
    /// so; the players who did not reveal forfeit their deposits to the pool.
    pub fn force_complete_round(&mut self, ctx: &CallContext) -> (r: Result<Settlement, GameError>)
        requires
            old(self).wf(),
        ensures
            final(self).wf(),
            match old(self).force_error(*ctx) {
                Some(e) => r == Err::<Settlement, GameError>(e) && *final(self) == *old(self),
                None => r matches Ok(s) && old(self).closed_by(*final(self), s),
            },
    {
        if self.status != GameStatus::Started {
            return Err(GameError::GameNotStarted);
        }
        match &self.current_round {
            None => {
                return Err(GameError::NoCurrentRound);
            },
            Some(round) => {
                if !(round.status == RoundStatus::Started
                    || round.status == RoundStatus::PendingRewardsClaim) {
                    return Err(GameError::FailedToCloseRound);
                }
                if position_of(&round.player_commits, &ctx.caller).is_none() {
                    return Err(GameError::CommitmentNotFound);
                }
                let timeout = match self.configs.round_timeout {
                    Some(t) => t,
                    None => DEFAULT_ROUND_TIMEOUT,
                };
                if (ctx.block_number as u64) < round.started_at as u64 + timeout as u64 {
                    return Err(GameError::RoundNotExpired);
                }
            },
        }
        Ok(self.close_live_round())
    }

    /// The error that `end_game` gives, if any.
    pub open spec fn end_error(&self) -> Option<GameError> {
        if self.game_status() != GameStatus::Started {
            Some(GameError::GameNotStarted)
        } else if self.live_round() matches Some(r) && r.player_commits@.len() > 0 {
            Some(GameError::FailedToCloseRound)
        } else {
            None
        }
    }

    /// Ends a started game whose live round, if any, holds no escrow; that
    /// round is dropped unplayed.
    pub fn end_game(&mut self) -> (r: Result<(), GameError>)
        requires
            old(self).wf(),
        ensures
            final(self).wf(),
            match old(self).end_error() {
                Some(e) => r == Err::<(), GameError>(e) && *final(self) == *old(self),
                None => {
                    &&& r is Ok
                    &&& final(self).game_status() == GameStatus::Ended
                    &&& final(self).live_round() is None
                    &&& final(self).player_list() == old(self).player_list()
                    &&& final(self).history() == old(self).history()
                    &&& final(self).next_id() == old(self).next_id()
                    &&& final(self).settings() == old(self).settings()
                },
            },
    {
        if self.status != GameStatus::Started {
            return Err(GameError::GameNotStarted);
        }
        if let Some(round) = &self.current_round {
            if round.player_commits.len() > 0 {
                return Err(GameError::FailedToCloseRound);
            }
        }
        self.current_round = None;
        self.status = GameStatus::Ended;
        Ok(())
    }

    /// The settings of the game.
    pub fn get_configs(&self) -> (c: GameConfigs)
        ensures
            c == self.settings(),
    {
        self.configs
    }

    /// The players, in the order in which they joined.
    pub fn get_players(&self) -> (p: Vec<AccountId>)
        ensures
            p@ == self.player_list(),
    {
        let mut p: Vec<AccountId> = Vec::new();
        let mut i: usize = 0;
        while i < self.players.len()
            invariant
                i <= self.players@.len(),
                p@ == self.players@.subrange(0, i as int),
            decreases self.players@.len() - i,
        {
            p.push(self.players[i]);
            i = i + 1;
            assert(p@ =~= self.players@.subrange(0, i as int));
        }
        assert(p@ =~= self.players@);
        p
    }

    /// The state of the game.
    pub fn get_status(&self) -> (s: GameStatus)
        ensures
            s == self.game_status(),
    {
        self.status
    }

    /// A copy of the live round, if any.
    pub fn get_current_round(&self) -> (r: Option<GameRound>)
        ensures
            r is Some == self.live_round() is Some,
            r matches Some(x) ==> same_round(x, self.live_round()->Some_0),
    {
        match &self.current_round {
            None => None,
            Some(round) => Some(GameRound {
                id: round.id,
                status: round.status,
                player_commits: copy_entries(&round.player_commits),
                player_reveals: copy_entries(&round.player_reveals),
                player_contributions: copy_entries(&round.player_contributions),
                total_contribution: round.total_contribution,
                total_reward: round.total_reward,
                started_at: round.started_at,
            }),
        }
    }
}

} // verus!
