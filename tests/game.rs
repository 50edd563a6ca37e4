use game_public_good::{
    commit, same_bytes32, AccountId, CallContext, GameConfigs, GameError, GamePublicGood,
    GameStatus, RoundStatus,
};

fn alice() -> AccountId {
    [1u8; 32]
}

fn bob() -> AccountId {
    [2u8; 32]
}

fn carol() -> AccountId {
    [3u8; 32]
}

fn call(caller: AccountId, value: u128, block: u32) -> CallContext {
    CallContext { caller, transferred_value: value, block_number: block }
}

fn configs() -> GameConfigs {
    GameConfigs {
        max_players: 10,
        min_players: 2,
        min_round_contribution: None,
        max_round_contribution: None,
        post_round_actions: false,
        round_timeout: None,
        max_rounds: None,
        join_fee: None,
        is_rounds_based: false,
    }
}

/// A started game of Alice and Bob with a fixed deposit of 100 and a timeout of 5 blocks.
fn started_game(is_rounds_based: bool) -> GamePublicGood {
    let mut c = configs();
    c.min_round_contribution = Some(50);
    c.max_round_contribution = Some(100);
    c.round_timeout = Some(5);
    c.is_rounds_based = is_rounds_based;
    let mut g = GamePublicGood::new(c);
    assert_eq!(g.join(&call(alice(), 0, 1), alice()), Ok(1));
    assert_eq!(g.join(&call(bob(), 0, 1), bob()), Ok(2));
    assert_eq!(g.start_game(), Ok(()));
    g
}

#[test]
fn lib_default_works() {
    let game_public_good = GamePublicGood::default();
    assert_eq!(game_public_good.get_players(), Vec::<AccountId>::new());
    assert_eq!(game_public_good.get_current_round(), None);
    assert_eq!(game_public_good.get_configs().max_players, 10);
    assert_eq!(game_public_good.get_configs().max_round_contribution, Some(1_000));
}

#[test]
fn new_works() {
    let game_public_good = GamePublicGood::new(configs());
    assert_eq!(game_public_good.get_players(), Vec::<AccountId>::new());
    assert_eq!(game_public_good.get_current_round(), None);
    assert_eq!(game_public_good.get_status(), GameStatus::Initialized);
}

#[test]
fn player_can_join() {
    let mut game_public_good = GamePublicGood::default();
    assert!(game_public_good.join(&call(alice(), 0, 1), alice()).is_ok());
}

#[test]
fn player_must_join_as_self() {
    let mut game_public_good = GamePublicGood::default();
    assert!(game_public_good.join(&call(alice(), 0, 1), bob()).is_err());
}

#[test]
fn player_can_start_game() {
    let mut game_public_good = GamePublicGood::default();
    assert!(game_public_good.join(&call(alice(), 0, 1), alice()).is_ok());
    assert!(game_public_good.join(&call(bob(), 0, 1), bob()).is_ok());
    match game_public_good.start_game() {
        Err(error) => {
            println!("{:?}", error);
            assert!(false);
        },
        Ok(_) => assert!(true),
    }
}

#[test]
fn player_cannot_start_already_started_game() {
    let mut game_public_good = GamePublicGood::default();
    assert!(game_public_good.join(&call(alice(), 0, 1), alice()).is_ok());
    assert!(game_public_good.join(&call(bob(), 0, 1), bob()).is_ok());
    assert!(game_public_good.start_game().is_ok());
    assert_eq!(game_public_good.start_game().err(), Some(GameError::InvalidGameStartState));
}

#[test]
fn game_cannot_start_without_enough_players() {
    let mut game_public_good = GamePublicGood::default();
    assert!(game_public_good.join(&call(alice(), 0, 1), alice()).is_ok());
    assert_eq!(game_public_good.start_game().err(), Some(GameError::NotEnoughPlayers));
}

#[test]
fn scenario_two_players_start_first_round() {
    let mut g = GamePublicGood::new(configs());
    assert_eq!(g.join(&call(alice(), 0, 1), alice()), Ok(1));
    assert_eq!(g.join(&call(bob(), 0, 1), bob()), Ok(2));
    assert_eq!(g.start_game(), Ok(()));
    assert_eq!(g.get_status(), GameStatus::Started);
    let round = g.get_current_round().unwrap();
    assert_eq!(round.id, 1);
    assert_eq!(round.status, RoundStatus::Ready);
    assert_eq!(round.total_contribution, 0);
}

#[test]
fn scenario_join_on_behalf_of_another_is_refused() {
    let mut g = GamePublicGood::new(configs());
    assert_eq!(g.join(&call(alice(), 0, 1), alice()), Ok(1));
    assert_eq!(g.join(&call(bob(), 0, 1), bob()), Ok(2));
    assert_eq!(g.start_game(), Ok(()));
    assert_eq!(g.join(&call(bob(), 0, 2), carol()), Err(GameError::CallerMustMatchNewPlayer));
    assert_eq!(g.get_players(), vec![alice(), bob()]);
}

#[test]
fn join_stops_at_max_players() {
    let mut c = configs();
    c.max_players = 2;
    let mut g = GamePublicGood::new(c);
    assert_eq!(g.join(&call(alice(), 0, 1), alice()), Ok(1));
    assert_eq!(g.join(&call(bob(), 0, 1), bob()), Ok(2));
    assert_eq!(g.join(&call(carol(), 0, 1), carol()), Err(GameError::MaxPlayersReached));
    assert_eq!(g.get_players().len(), 2);
}

#[test]
fn join_requires_fee_and_refuses_duplicates() {
    let mut c = configs();
    c.join_fee = Some(10);
    let mut g = GamePublicGood::new(c);
    assert_eq!(g.join(&call(alice(), 9, 1), alice()), Err(GameError::InsufficientJoiningFees));
    assert_eq!(g.join(&call(alice(), 10, 1), alice()), Ok(1));
    assert_eq!(g.join(&call(alice(), 10, 1), alice()), Err(GameError::PlayerAlreadyJoined));
    assert_eq!(g.get_players(), vec![alice()]);
}

#[test]
fn play_round_needs_started_game() {
    let mut g = GamePublicGood::new(configs());
    let h = commit(1, 1);
    assert_eq!(g.play_round(&call(alice(), 0, 1), h), Err(GameError::GameNotStarted));
    assert_eq!(g.reveal_round(&call(alice(), 0, 1), (1, 1)), Err(GameError::GameNotStarted));
    assert_eq!(g.complete_round().err(), Some(GameError::GameNotStarted));
}

#[test]
fn scenario_deposit_below_minimum_is_refused() {
    let mut g = started_game(false);
    let h = commit(100, 7);
    assert_eq!(g.play_round(&call(alice(), 40, 3), h), Err(GameError::InvalidRoundContribution));
    assert_eq!(g.play_round(&call(alice(), 99, 3), h), Err(GameError::InvalidRoundContribution));
    assert_eq!(g.get_current_round().unwrap().status, RoundStatus::Ready);
    assert_eq!(g.play_round(&call(alice(), 100, 3), h), Ok(()));
    let round = g.get_current_round().unwrap();
    assert_eq!(round.status, RoundStatus::Started);
    assert_eq!(round.total_contribution, 100);
    assert_eq!(round.started_at, 3);
    assert_eq!(round.player_contributions, vec![(alice(), 100)]);
    assert_eq!(g.play_round(&call(alice(), 100, 4), h), Err(GameError::CommitmentAlreadyMade));
}

#[test]
fn scenario_reveal_checks_commitment() {
    let mut g = started_game(false);
    assert_eq!(g.play_round(&call(alice(), 100, 3), commit(100, 7)), Ok(()));
    assert_eq!(g.play_round(&call(bob(), 100, 3), commit(30, 9)), Ok(()));
    assert_eq!(g.reveal_round(&call(carol(), 0, 4), (100, 7)), Err(GameError::CommitmentNotFound));
    assert_eq!(g.reveal_round(&call(alice(), 0, 4), (100, 8)), Err(GameError::InvalidReveal));
    assert_eq!(g.reveal_round(&call(alice(), 0, 4), (100, 7)), Ok(()));
    assert_eq!(g.reveal_round(&call(alice(), 0, 4), (99, 7)), Err(GameError::InvalidReveal));
    assert_eq!(g.reveal_round(&call(alice(), 0, 4), (100, 7)), Err(GameError::RevealAlreadyMade));
    assert_eq!(g.get_current_round().unwrap().status, RoundStatus::Started);
    assert_eq!(g.complete_round().err(), Some(GameError::FailedToCloseRound));
    assert_eq!(g.reveal_round(&call(bob(), 0, 5), (30, 9)), Ok(()));
    assert_eq!(g.get_current_round().unwrap().status, RoundStatus::PendingRewardsClaim);
    assert_eq!(g.play_round(&call(carol(), 100, 5), commit(1, 1)), Err(GameError::RoundClosed));
}

#[test]
fn complete_round_splits_pool_and_ends_single_round_game() {
    let mut g = started_game(false);
    assert_eq!(g.play_round(&call(alice(), 100, 3), commit(100, 7)), Ok(()));
    assert_eq!(g.play_round(&call(bob(), 100, 3), commit(30, 9)), Ok(()));
    assert_eq!(g.reveal_round(&call(bob(), 0, 4), (30, 9)), Ok(()));
    assert_eq!(g.reveal_round(&call(alice(), 0, 4), (100, 7)), Ok(()));
    let s = g.complete_round().unwrap();
    assert_eq!(s.payouts, vec![(bob(), 100), (alice(), 100)]);
    assert_eq!(s.retained, 0);
    assert_eq!(g.get_status(), GameStatus::Ended);
    assert_eq!(g.get_current_round(), None);
    assert_eq!(g.end_game(), Err(GameError::GameNotStarted));
}

#[test]
fn scenario_force_complete_after_timeout() {
    let mut g = started_game(true);
    assert_eq!(g.play_round(&call(alice(), 100, 10), commit(100, 7)), Ok(()));
    assert_eq!(g.play_round(&call(bob(), 100, 11), commit(40, 2)), Ok(()));
    assert_eq!(g.reveal_round(&call(alice(), 0, 12), (100, 7)), Ok(()));
    assert_eq!(g.force_complete_round(&call(alice(), 0, 14)).err(), Some(GameError::RoundNotExpired));
    assert_eq!(g.force_complete_round(&call(carol(), 0, 15)).err(), Some(GameError::CommitmentNotFound));
    let s = g.force_complete_round(&call(alice(), 0, 15)).unwrap();
    // Bob's deposit is forfeited to the pool, which goes to Alice alone.
    assert_eq!(s.payouts, vec![(alice(), 200)]);
    assert_eq!(s.retained, 0);
    assert_eq!(g.get_status(), GameStatus::Started);
    let next = g.get_current_round().unwrap();
    assert_eq!(next.id, 2);
    assert_eq!(next.status, RoundStatus::Ready);
    assert_eq!(next.total_contribution, 0);
}

#[test]
fn force_complete_without_reveals_retains_pool() {
    let mut g = started_game(false);
    assert_eq!(g.force_complete_round(&call(alice(), 0, 100)).err(), Some(GameError::FailedToCloseRound));
    assert_eq!(g.play_round(&call(alice(), 100, 10), commit(1, 2)), Ok(()));
    assert_eq!(g.play_round(&call(bob(), 100, 10), commit(3, 4)), Ok(()));
    let s = g.force_complete_round(&call(bob(), 0, 30)).unwrap();
    assert!(s.payouts.is_empty());
    assert_eq!(s.retained, 200);
    assert_eq!(g.get_status(), GameStatus::Ended);
}

#[test]
fn default_timeout_applies_when_unset() {
    let mut c = configs();
    c.max_round_contribution = Some(5);
    let mut g = GamePublicGood::new(c);
    assert_eq!(g.join(&call(alice(), 0, 1), alice()), Ok(1));
    assert_eq!(g.join(&call(bob(), 0, 1), bob()), Ok(2));
    assert_eq!(g.start_game(), Ok(()));
    assert_eq!(g.play_round(&call(alice(), 5, 20), commit(5, 1)), Ok(()));
    assert_eq!(g.force_complete_round(&call(alice(), 0, 29)).err(), Some(GameError::RoundNotExpired));
    assert!(g.force_complete_round(&call(alice(), 0, 30)).is_ok());
}

#[test]
fn uneven_pool_gives_remainder_to_first_revealer() {
    let mut c = configs();
    c.max_round_contribution = Some(7);
    c.round_timeout = Some(1);
    let mut g = GamePublicGood::new(c);
    assert_eq!(g.join(&call(alice(), 0, 1), alice()), Ok(1));
    assert_eq!(g.join(&call(bob(), 0, 1), bob()), Ok(2));
    assert_eq!(g.join(&call(carol(), 0, 1), carol()), Ok(3));
    assert_eq!(g.start_game(), Ok(()));
    for (p, n) in [(alice(), 1u128), (bob(), 2), (carol(), 3)] {
        assert_eq!(g.play_round(&call(p, 7, 5), commit(7, n)), Ok(()));
    }
    assert_eq!(g.reveal_round(&call(carol(), 0, 6), (7, 3)), Ok(()));
    assert_eq!(g.reveal_round(&call(alice(), 0, 6), (7, 1)), Ok(()));
    let s = g.force_complete_round(&call(bob(), 0, 6)).unwrap();
    assert_eq!(s.payouts, vec![(carol(), 11), (alice(), 10)]);
    let total: u128 = s.payouts.iter().map(|p| p.1).sum::<u128>() + s.retained;
    assert_eq!(total, 21);
}

#[test]
fn rounds_stop_at_max_rounds() {
    let mut c = configs();
    c.is_rounds_based = true;
    c.max_rounds = Some(2);
    let mut g = GamePublicGood::new(c);
    assert_eq!(g.join(&call(alice(), 0, 1), alice()), Ok(1));
    assert_eq!(g.join(&call(bob(), 0, 1), bob()), Ok(2));
    assert_eq!(g.start_game(), Ok(()));
    for id in 1u32..3 {
        assert_eq!(g.get_current_round().unwrap().id, id);
        assert_eq!(g.play_round(&call(alice(), 0, 1), commit(0, 0)), Ok(()));
        assert_eq!(g.reveal_round(&call(alice(), 0, 1), (0, 0)), Ok(()));
        assert!(g.complete_round().is_ok());
    }
    assert_eq!(g.get_status(), GameStatus::Ended);
    assert_eq!(g.get_current_round(), None);
}

#[test]
fn end_game_only_without_escrow() {
    let mut g = started_game(true);
    assert_eq!(g.play_round(&call(alice(), 100, 3), commit(1, 1)), Ok(()));
    assert_eq!(g.end_game(), Err(GameError::FailedToCloseRound));
    assert_eq!(g.reveal_round(&call(alice(), 0, 3), (1, 1)), Ok(()));
    assert!(g.complete_round().is_ok());
    assert_eq!(g.end_game(), Ok(()));
    assert_eq!(g.get_status(), GameStatus::Ended);
    assert_eq!(g.get_current_round(), None);
}

#[test]
fn commit_hashes_the_encoded_pair() {
    let h = commit(100, 7);
    assert_eq!(h, commit(100, 7));
    assert_ne!(h, commit(99, 7));
    assert_ne!(h, commit(7, 100));
    let mut preimage = [0u8; 32];
    preimage[..16].copy_from_slice(&100u128.to_le_bytes());
    preimage[16..].copy_from_slice(&7u128.to_le_bytes());
    assert_ne!(h, preimage);
    assert_ne!(commit(0, 0), [0u8; 32]);
}

#[test]
fn same_bytes32_compares_every_byte() {
    let a = [5u8; 32];
    let mut b = [5u8; 32];
    assert!(same_bytes32(&a, &b));
    b[31] = 6;
    assert!(!same_bytes32(&a, &b));
}

#[test]
fn commit_is_blake2_of_little_endian_pair() {
    let mut preimage = Vec::new();
    preimage.extend_from_slice(&100u128.to_le_bytes());
    preimage.extend_from_slice(&7u128.to_le_bytes());
    let mut expected = [0u8; 32];
    ink::env::hash_bytes::<ink::env::hash::Blake2x256>(&preimage, &mut expected);
    assert_eq!(commit(100, 7), expected);
}
