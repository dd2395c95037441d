use panda_battle::battle::callback_resolve_battle;
use panda_battle::errors::PandaBattleError;
use panda_battle::player::{initiate_battle, request_join_round};
use panda_battle::state::{GameRound, PlayerState, RoundStatus};

fn arena() -> GameRound {
    GameRound {
        round_number: 2,
        entry_fee: 1_000,
        attack_pack_price: 100,
        duration_secs: 86_400,
        entry_hourly_inc_pct: 1,
        start_time: 0,
        end_time: 86_400,
        leaderboard_reveal_ts: 43_200,
        prize_pool: 0,
        player_count: 0,
        total_battles: 0,
        is_active: true,
        payouts_processed: false,
    }
}

fn brawler(id: u64, strength: u8, agility: u8, intellect: u8) -> PlayerState {
    PlayerState {
        player: id,
        round: 2,
        strength,
        agility,
        intellect,
        level: 0,
        xp: 0,
        points: 0,
        turns: 3,
        max_turns: 50,
        last_turn_regen: 0,
        rerolls_used: 0,
        packs_bought_hour: 0,
        last_pack_hour: -1,
        last_battle: 0,
        battles_fought: 0,
        wins: 0,
        losses: 0,
        prize_share: 0,
        prize_claimed: false,
        joined_at: 0,
        entry_fee_paid: 0,
    }
}

#[test]
fn one_battle_spends_exactly_one_turn() {
    let mut round = arena();
    let mut attacker = brawler(1, 10, 15, 5);
    let mut defender = brawler(2, 8, 5, 10);
    initiate_battle(&round, &mut attacker, 2).unwrap();
    assert_eq!(attacker.turns, 2);
    callback_resolve_battle(&mut attacker, &mut defender, &mut round, &[0u8; 32], 100).unwrap();
    // The resolution itself consumes no further turn.
    assert_eq!(attacker.turns, 2);
    assert_eq!(defender.turns, 3);
    assert_eq!(round.total_battles, 1);
}

#[test]
fn battle_counter_overflow_commits_nothing() {
    let mut round = arena();
    let mut attacker = brawler(1, 10, 15, 5);
    let mut defender = brawler(2, 8, 5, 10);
    attacker.battles_fought = u16::MAX;
    let before_a = attacker;
    let before_d = defender;
    let before_r = round;
    let r = callback_resolve_battle(&mut attacker, &mut defender, &mut round, &[0u8; 32], 100);
    assert_eq!(r, Err(PandaBattleError::Overflow));
    assert_eq!(attacker, before_a);
    assert_eq!(defender, before_d);
    assert_eq!(round, before_r);
}

#[test]
fn join_pool_overflow_commits_nothing() {
    let mut round = arena();
    round.prize_pool = u64::MAX;
    let r = request_join_round(&mut round, 5, 0);
    assert_eq!(r, Err(PandaBattleError::Overflow));
    assert_eq!(round.prize_pool, u64::MAX);
    assert_eq!(round.player_count, 0);
}

#[test]
fn round_status_follows_the_lifecycle() {
    let mut round = arena();
    assert_eq!(round.status(), RoundStatus::Active);
    round.is_active = false;
    assert_eq!(round.status(), RoundStatus::Ended);
    round.payouts_processed = true;
    assert_eq!(round.status(), RoundStatus::PayoutsProcessed);
    assert_eq!(RoundStatus::default(), RoundStatus::Pending);
}

#[test]
fn power_and_hp_formulas() {
    let p = brawler(1, 10, 15, 5);
    assert_eq!(p.total_power(), 30);
    assert_eq!(p.calculate_hp(), 130);
}
