use panda_battle::admin::{create_round, end_round, initialize_game, update_config};
use panda_battle::errors::PandaBattleError;

#[test]
fn initialize_game_sets_admin_and_zero_counters() {
    let config = initialize_game(77, 1_001);
    assert_eq!(config.id, 77);
    assert_eq!(config.admin, 1_001);
    assert_eq!(config.current_round, 0);
    assert_eq!(config.total_rounds, 0);
}

#[test]
fn create_round_numbers_sequentially_and_sets_window() {
    let mut config = initialize_game(77, 1_001);
    let round = create_round(&mut config, 1_001, 1_000_000, 100, 86_400, 2, 500).unwrap();
    assert_eq!(round.round_number, 1);
    assert_eq!(round.start_time, 500);
    assert_eq!(round.end_time, 500 + 86_400);
    assert_eq!(round.leaderboard_reveal_ts, 500 + 43_200);
    assert_eq!(round.prize_pool, 0);
    assert_eq!(round.player_count, 0);
    assert_eq!(round.total_battles, 0);
    assert!(round.is_active);
    assert!(!round.payouts_processed);
    assert_eq!(config.current_round, 1);
    assert_eq!(config.total_rounds, 1);
    let second = create_round(&mut config, 1_001, 1_000_000, 100, 3_600, 1, 90_000).unwrap();
    assert_eq!(second.round_number, 2);
    assert_eq!(config.total_rounds, 2);
}

#[test]
fn create_round_is_admin_only() {
    let mut config = initialize_game(77, 1_001);
    let r = create_round(&mut config, 9_999, 1_000_000, 100, 86_400, 2, 500);
    assert_eq!(r.err(), Some(PandaBattleError::Unauthorized));
    assert_eq!(config.total_rounds, 0);
}

#[test]
fn create_round_rejects_empty_duration() {
    let mut config = initialize_game(77, 1_001);
    let r = create_round(&mut config, 1_001, 1_000_000, 100, 0, 2, 500);
    assert_eq!(r.err(), Some(PandaBattleError::InvalidConfig));
}

#[test]
fn admin_may_end_a_round_early() {
    let mut config = initialize_game(77, 1_001);
    let mut round = create_round(&mut config, 1_001, 1_000_000, 100, 86_400, 2, 500).unwrap();
    let r = end_round(&config, &mut round, 1_001, 10_000);
    assert!(r.is_ok());
    assert!(!round.is_active);
    assert_eq!(round.end_time, 10_000);
}

#[test]
fn anyone_may_end_an_expired_round() {
    let mut config = initialize_game(77, 1_001);
    let mut round = create_round(&mut config, 1_001, 1_000_000, 100, 86_400, 2, 500).unwrap();
    // Too early for a stranger.
    let early = end_round(&config, &mut round, 5, 10_000);
    assert_eq!(early, Err(PandaBattleError::Unauthorized));
    assert!(round.is_active);
    // Past end_time anyone closes it.
    let late = end_round(&config, &mut round, 5, 500 + 86_400);
    assert!(late.is_ok());
    assert!(!round.is_active);
}

#[test]
fn ending_twice_fails() {
    let mut config = initialize_game(77, 1_001);
    let mut round = create_round(&mut config, 1_001, 1_000_000, 100, 86_400, 2, 500).unwrap();
    end_round(&config, &mut round, 1_001, 10_000).unwrap();
    let again = end_round(&config, &mut round, 1_001, 20_000);
    assert_eq!(again, Err(PandaBattleError::RoundAlreadyEnded));
    assert_eq!(round.end_time, 10_000);
}

#[test]
fn update_config_checks_the_caller() {
    let mut config = initialize_game(77, 1_001);
    assert!(update_config(&mut config, 1_001).is_ok());
    assert_eq!(
        update_config(&mut config, 5),
        Err(PandaBattleError::Unauthorized)
    );
}
