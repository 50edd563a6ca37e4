use vstd::prelude::*;
use crate::commitment::commitment_of;
use crate::escrow::{has_player, lemma_sum_push, payout_of, settles, sum_values};
use crate::game::GamePublicGood;
use crate::types::{AccountId, CallContext, GameError, GameStatus, RoundStatus, Settlement};

verus! {

/// A game never holds more players than its configured maximum, and a join
/// is only accepted when the caller adds themselves into a game with room
/// left.
pub proof fn lemma_join_bounded_and_self_only(g: GamePublicGood, ctx: CallContext, player: AccountId)
    requires
        g.wf(),
    ensures
        g.player_list().len() <= g.settings().max_players,
        g.join_error(ctx, player) is None ==> {
            &&& ctx.caller == player
            &&& g.player_list().len() + 1 <= g.settings().max_players
        },
{
}

/// Starting a game fails with `InvalidGameStartState` once it has left
/// `Initialized` (in particular after a successful start), and otherwise
/// with `NotEnoughPlayers` whenever fewer than the minimum have joined.
pub proof fn lemma_start_game_errors(g: GamePublicGood)
    requires
        g.wf(),
    ensures
        g.game_status() != GameStatus::Initialized
            ==> g.start_error() == Some(GameError::InvalidGameStartState),
        g.game_status() == GameStatus::Initialized && g.player_list().len() < g.settings().min_players
            ==> g.start_error() == Some(GameError::NotEnoughPlayers),
{
}

/// In every round, live or settled, the escrowed contributions add up to the
/// round's total contribution.
pub proof fn lemma_contributions_add_up(g: GamePublicGood)
    requires
        g.wf(),
    ensures
        g.live_round() matches Some(r) ==> sum_values(r.player_contributions@) == r.total_contribution,
        forall|i: int| 0 <= i < g.history().len()
            ==> sum_values(#[trigger] g.history()[i].player_contributions@) == g.history()[i].total_contribution,
{
    assert forall|i: int| 0 <= i < g.history().len()
        implies sum_values(#[trigger] g.history()[i].player_contributions@) == g.history()[i].total_contribution by {
        assert(g.history()[i].id < g.next_id());
    }
}

/// A reveal of `secret` in a started game with a live round is accepted
/// exactly when the caller committed in that round to the commitment of
/// `secret` and has not revealed yet.
pub proof fn lemma_reveal_sound(g: GamePublicGood, ctx: CallContext, secret: (u128, u128))
    requires
        g.wf(),
        g.game_status() == GameStatus::Started,
        g.live_round() is Some,
    ensures
        g.reveal_error(ctx, commitment_of(secret.0, secret.1)) is None <==> {
            let r = g.live_round()->Some_0;
            &&& exists|i: int| 0 <= i < r.player_commits@.len()
                && #[trigger] r.player_commits@[i].0 == ctx.caller
                && r.player_commits@[i].1@ == commitment_of(secret.0, secret.1)
            &&& !has_player(r.player_reveals@, ctx.caller)
        },
{
}

/// Once a player has committed in the live round and the round has expired,
/// that player can force it to complete, whoever has not revealed.
pub proof fn lemma_force_complete_live(g: GamePublicGood, ctx: CallContext)
    requires
        g.wf(),
        g.game_status() == GameStatus::Started,
        g.live_round() is Some,
        has_player(g.live_round()->Some_0.player_commits@, ctx.caller),
        g.expired(g.live_round()->Some_0, ctx.block_number),
    ensures
        g.force_error(ctx) is None,
{
    let r = g.live_round()->Some_0;
    assert(r.player_commits@.len() > 0);
    assert(r.status == RoundStatus::Started || r.status == RoundStatus::PendingRewardsClaim);
}

/// The first `k` payouts of a split of `total` among `n` players add up to
/// `k` shares, and the remainder once the first payout is counted.
proof fn lemma_payout_prefix(s: Seq<(AccountId, u128)>, total: u128, n: int, k: int)
    requires
        n >= 1,
        0 <= k <= s.len() == n,
        forall|i: int| 0 <= i < n ==> #[trigger] s[i].1 == payout_of(total, n, i),
    ensures
        sum_values(s.subrange(0, k)) == k * (total as int / n) + if k == 0 { 0 } else { total as int % n },
    decreases k,
{
    if k == 0 {
        assert(s.subrange(0, 0) =~= Seq::<(AccountId, u128)>::empty());
    } else {
        lemma_payout_prefix(s, total, n, k - 1);
        assert(s.subrange(0, k) =~= s.subrange(0, k - 1).push(s[k - 1]));
        lemma_sum_push(s.subrange(0, k - 1), s[k - 1]);
        assert(k * (total as int / n) == (k - 1) * (total as int / n) + total as int / n) by (nonlinear_arith);
    }
}

/// A settlement neither creates nor destroys value: what it pays to the
/// players who revealed, together with what it retains, is the pool.
pub proof fn lemma_settlement_conserves<V>(s: Settlement, revealers: Seq<(AccountId, V)>, total: u128)
    requires
        settles(s, revealers, total),
    ensures
        sum_values(s.payouts@) + s.retained == total,
{
    let n = revealers.len() as int;
    if n == 0 {
        assert(s.payouts@ =~= Seq::<(AccountId, u128)>::empty());
    } else {
        assert forall|i: int| 0 <= i < n implies #[trigger] s.payouts@[i].1 == payout_of(total, n, i) by {
            assert(s.payouts@[i].0 == revealers[i].0);
        }
        lemma_payout_prefix(s.payouts@, total, n, n);
        assert(s.payouts@.subrange(0, n) =~= s.payouts@);
        vstd::arithmetic::div_mod::lemma_fundamental_div_mod(total as int, n);
        assert(n * (total as int / n) == (total as int / n) * n) by (nonlinear_arith);
    }
}

} // verus!
