//! Data model of the game: configuration, rounds, per-player session records
//! and the leaderboard, together with the game constants and the
//! well-formedness invariants that every operation preserves.
use vstd::prelude::*;

verus! {

// ============== GAME CONSTANTS ==============

/// Turns granted when joining a round.
pub const STARTING_TURNS: u8 = 3;

/// Extra turns granted when joining within the first six hours.
pub const EARLY_BIRD_TURNS: u8 = 2;

/// Turns regenerated per full regeneration interval.
pub const TURNS_PER_HOUR: u8 = 3;

/// Turn regeneration interval in seconds (one hour).
pub const TURN_REGEN_INTERVAL: i64 = 3600;

/// Turn storage capacity given to every player at join time.
pub const DEFAULT_MAX_TURNS: u8 = 50;

/// Turns granted per attack pack.
pub const TURNS_PER_PACK: u8 = 10;

/// Most attack packs one call may buy.
pub const MAX_PACKS_PER_CALL: u8 = 5;

/// Attribute rerolls allowed per round.
pub const MAX_REROLLS: u8 = 3;

/// Fixed fee for one attribute reroll, in token units.
pub const REROLL_FEE: u64 = 1000000;

/// Experience gained per battle won.
pub const XP_PER_WIN: u32 = 3;

/// Highest level a player can reach.
pub const MAX_LEVEL: u8 = 10;

/// Attribute cap (random base at most 15, plus at most 5 from levels).
pub const MAX_ATTRIBUTE: u8 = 20;

/// Most turns a single battle simulation runs.
pub const MAX_BATTLE_TURNS: u8 = 10;

/// Entries kept on the leaderboard.
pub const LEADERBOARD_SIZE: usize = 20;

// ============== ACCOUNTS ==============

/// Process-wide game configuration: admin identity and round counters.
///
/// Account identities (admin, players) are carried as plain 64-bit ids; the
/// engine only ever compares them for equality.
#[derive(Clone, Copy, PartialEq, Eq, Structural, Debug)]
pub struct GlobalConfig {
    /// Unique id of this game instance.
    pub id: u64,
    /// Admin authority.
    pub admin: u64,
    /// Current active round number.
    pub current_round: u64,
    /// Total rounds created.
    pub total_rounds: u64,
}

/// One timed competitive round with its own prize pool and player set.
#[derive(Clone, Copy, PartialEq, Eq, Structural, Debug)]
pub struct GameRound {
    /// Round number, unique and sequential under one configuration.
    pub round_number: u64,
    /// Base entry fee in token units, before the time-based markup.
    pub entry_fee: u64,
    /// Attack pack base price in token units.
    pub attack_pack_price: u64,
    /// Round duration in seconds.
    pub duration_secs: i64,
    /// Entry fee increase per elapsed hour, in percent of the base fee.
    pub entry_hourly_inc_pct: u8,
    /// Round start timestamp.
    pub start_time: i64,
    /// Round end timestamp; frozen to the closing time on an early end.
    pub end_time: i64,
    /// Timestamp from which the leaderboard may be revealed.
    pub leaderboard_reveal_ts: i64,
    /// Total prize pool in token units.
    pub prize_pool: u64,
    /// Number of players who joined this round.
    pub player_count: u32,
    /// Total battles resolved this round.
    pub total_battles: u32,
    /// Whether the round is running.
    pub is_active: bool,
    /// Whether prize shares have been computed.
    pub payouts_processed: bool,
}

/// Per-player, per-round session record.
#[derive(Clone, Copy, PartialEq, Eq, Structural, Debug)]
pub struct PlayerState {
    /// Owning player's account id.
    pub player: u64,
    /// Round number this record belongs to.
    pub round: u64,
    /// Strength attribute (damage output).
    pub strength: u8,
    /// Agility attribute (turn order, dodge chance, crit chance).
    pub agility: u8,
    /// Intellect attribute (damage mitigation).
    pub intellect: u8,
    /// Current level.
    pub level: u8,
    /// Experience points, monotone non-decreasing.
    pub xp: u32,
    /// Leaderboard points (one per win).
    pub points: u16,
    /// Turns available right now.
    pub turns: u8,
    /// Turn storage capacity.
    pub max_turns: u8,
    /// Last turn regeneration timestamp.
    pub last_turn_regen: i64,
    /// Attribute rerolls consumed.
    pub rerolls_used: u8,
    /// Attack packs bought in the current hour window.
    pub packs_bought_hour: u8,
    /// Timestamp of the last pack purchase, or -1 before the first one.
    pub last_pack_hour: i64,
    /// Timestamp of the last battle.
    pub last_battle: i64,
    /// Battles fought.
    pub battles_fought: u16,
    /// Battles won.
    pub wins: u16,
    /// Battles lost.
    pub losses: u16,
    /// Prize share computed at round end, in token units.
    pub prize_share: u64,
    /// Whether the prize share has been claimed.
    pub prize_claimed: bool,
    /// When the player joined the round.
    pub joined_at: i64,
    /// Entry fee actually paid.
    pub entry_fee_paid: u64,
}

/// One ranked row of the leaderboard.
#[derive(Clone, Copy, PartialEq, Eq, Structural, Debug)]
pub struct LeaderboardEntry {
    /// Player account id.
    pub player: u64,
    /// Leaderboard points at reveal time.
    pub points: u16,
}

/// Frozen ranking of the best players of one round.
#[derive(Debug)]
pub struct Leaderboard {
    /// Round number this leaderboard belongs to.
    pub round: u64,
    /// Best players, sorted by points descending, at most [`LEADERBOARD_SIZE`].
    pub entries: Vec<LeaderboardEntry>,
    /// One-way flag: flips to true at reveal and never back.
    pub is_revealed: bool,
}

/// The round lifecycle: Pending → Active → Ended → PayoutsProcessed.
#[derive(Clone, Copy, PartialEq, Eq, Structural, Debug)]
pub enum RoundStatus {
    Pending,
    Active,
    Ended,
    PayoutsProcessed,
}

impl Default for RoundStatus {
    /// A round not yet created is pending.
    fn default() -> (r: Self)
        ensures
            r == RoundStatus::Pending,
    {
        RoundStatus::Pending
    }
}

/// Where a round record stands in its lifecycle. Payouts can only have been
/// processed on an inactive round, so the order of the tests is total.
pub open spec fn spec_status(g: GameRound) -> RoundStatus {
    if g.payouts_processed {
        RoundStatus::PayoutsProcessed
    } else if g.is_active {
        RoundStatus::Active
    } else {
        RoundStatus::Ended
    }
}

impl GameRound {
    /// The round's place in the lifecycle.
    pub fn status(&self) -> (s: RoundStatus)
        ensures
            s == spec_status(*self),
    {
        if self.payouts_processed {
            RoundStatus::PayoutsProcessed
        } else if self.is_active {
            RoundStatus::Active
        } else {
            RoundStatus::Ended
        }
    }
}

// ============== WELL-FORMEDNESS ==============

/// Invariant of a player session record. Established at join time and
/// preserved by every operation; in particular `turns <= max_turns` holds
/// after every regeneration, purchase and battle.
pub open spec fn player_wf(p: PlayerState) -> bool {
    &&& p.turns <= p.max_turns
    &&& p.level <= MAX_LEVEL
    &&& p.strength <= MAX_ATTRIBUTE
    &&& p.agility <= MAX_ATTRIBUTE
    &&& p.intellect <= MAX_ATTRIBUTE
    &&& p.rerolls_used <= MAX_REROLLS
    &&& 0 <= p.last_turn_regen
    &&& -1 <= p.last_pack_hour
}

/// Invariant of a round record: timestamps are proper Unix times.
pub open spec fn round_wf(g: GameRound) -> bool {
    &&& 0 <= g.start_time
    &&& 0 <= g.end_time
    &&& 0 <= g.leaderboard_reveal_ts
}

// ============== DERIVED QUANTITIES ==============

/// Battle hit points as a function of the attributes.
pub open spec fn spec_hp(strength: int, intellect: int) -> int {
    100 + (strength + intellect) * 2
}

/// Attribute sum used to break exact hit-point ties.
pub open spec fn spec_power(strength: int, agility: int, intellect: int) -> int {
    strength + agility + intellect
}

impl PlayerState {
    /// Total power: the attribute sum, used for ranking ties.
    pub fn total_power(&self) -> (r: u16)
        ensures
            r == spec_power(self.strength as int, self.agility as int, self.intellect as int),
    {
        self.strength as u16 + self.agility as u16 + self.intellect as u16
    }

    /// Starting hit points for a battle: `100 + (STR + INT) * 2`.
    pub fn calculate_hp(&self) -> (r: u16)
        ensures
            r == spec_hp(self.strength as int, self.intellect as int),
    {
        100 + (self.strength as u16 + self.intellect as u16) * 2
    }
}

} // verus!
