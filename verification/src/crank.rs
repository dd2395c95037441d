//! Permissionless crank operations: anyone may call these to advance
//! time-dependent shared state — turn regeneration, the hourly pack-counter
//! reset, the leaderboard reveal and the prize distribution.
use vstd::prelude::*;

use crate::errors::PandaBattleError;
use crate::state::{
    GameRound, Leaderboard, LeaderboardEntry, PlayerState, player_wf, LEADERBOARD_SIZE,
    TURNS_PER_HOUR, TURN_REGEN_INTERVAL,
};

verus! {

broadcast use vstd::seq_lib::group_to_multiset_ensures;

/// Full regeneration cycles elapsed between the last regeneration and `now`.
pub open spec fn regen_cycles(last: int, now: int) -> int {
    (now - last) / (TURN_REGEN_INTERVAL as int)
}

/// Turn balance after adding `add` turns under the storage cap `max`.
pub open spec fn capped_turns(turns: int, add: int, max: int) -> int {
    if turns + add >= max {
        max
    } else {
        turns + add
    }
}

/// Regenerates turns for a player: for every full [`TURN_REGEN_INTERVAL`]
/// elapsed since `last_turn_regen`, [`TURNS_PER_HOUR`] turns are granted,
/// capped at `max_turns`, and the regeneration timestamp advances by exactly
/// the credited cycles — never to `now` — so no partial interval is ever
/// lost or double-counted.
///
/// Fails with `RegenNotReady` before a full interval has elapsed, and with
/// `TurnStorageFull` when the player already sits at the cap: a player at
/// the cap keeps a stale timestamp on purpose and must spend turns first.
pub fn regenerate_turns(round: &GameRound, p: &mut PlayerState, now: i64) -> (r: Result<
    (),
    PandaBattleError,
>)
    requires
        player_wf(*old(p)),
        0 <= now,
    ensures
        player_wf(*final(p)),
        match r {
            Ok(()) => {
                let cycles = regen_cycles(old(p).last_turn_regen as int, now as int);
                &&& round.is_active
                &&& now - old(p).last_turn_regen >= TURN_REGEN_INTERVAL
                &&& old(p).turns < old(p).max_turns
                &&& *final(p) == (PlayerState {
                    turns: capped_turns(
                        old(p).turns as int,
                        cycles * (TURNS_PER_HOUR as int),
                        old(p).max_turns as int,
                    ) as u8,
                    last_turn_regen: (old(p).last_turn_regen + cycles * (
                    TURN_REGEN_INTERVAL as int)) as i64,
                    ..*old(p)
                })
            },
            Err(e) => {
                &&& *final(p) == *old(p)
                &&& (e == PandaBattleError::RoundNotActive && !round.is_active)
                    || (e == PandaBattleError::RegenNotReady && round.is_active
                        && now - old(p).last_turn_regen < TURN_REGEN_INTERVAL)
                    || (e == PandaBattleError::TurnStorageFull && round.is_active
                        && now - old(p).last_turn_regen >= TURN_REGEN_INTERVAL
                        && old(p).turns >= old(p).max_turns)
            },
        },
{
    if !round.is_active {
        return Err(PandaBattleError::RoundNotActive);
    }
    let elapsed: i64 = now - p.last_turn_regen;
    if elapsed < TURN_REGEN_INTERVAL {
        return Err(PandaBattleError::RegenNotReady);
    }
    if p.turns >= p.max_turns {
        return Err(PandaBattleError::TurnStorageFull);
    }
    let elapsed_u: u64 = elapsed as u64;
    let cycles: u64 = elapsed_u / 3600;
    proof {
        vstd::arithmetic::div_mod::lemma_fundamental_div_mod(elapsed_u as int, 3600);
    }
    let turns_to_add: u64 = cycles * 3;
    let new_total: u64 = if turns_to_add > 255 {
        255 + p.turns as u64
    } else {
        p.turns as u64 + turns_to_add
    };
    p.turns = if new_total >= p.max_turns as u64 {
        p.max_turns
    } else {
        new_total as u8
    };
    p.last_turn_regen = p.last_turn_regen + (cycles * 3600) as i64;
    Ok(())
}

/// Clears the hourly pack-purchase counter once a full hour has passed since
/// the last purchase; a no-op before that, or before any purchase at all.
pub fn reset_packs_if_new_hour(p: &mut PlayerState, now: i64)
    requires
        player_wf(*old(p)),
        0 <= now,
    ensures
        player_wf(*final(p)),
        *final(p) == if old(p).last_pack_hour >= 0 && now >= old(p).last_pack_hour + 3600 {
            (PlayerState { packs_bought_hour: 0, ..*old(p) })
        } else {
            *old(p)
        },
{
    if p.last_pack_hour >= 0 && now - 3600 >= p.last_pack_hour {
        p.packs_bought_hour = 0;
    }
}

// ============== LEADERBOARD REVEAL ==============

/// Entries ranked from best to worst: points never rise along the sequence.
pub open spec fn sorted_desc(s: Seq<LeaderboardEntry>) -> bool {
    forall|i: int, j: int| 0 <= i <= j < s.len() ==> s[i].points >= s[j].points
}

/// The standings row a session record contributes to the leaderboard scan.
pub open spec fn standing_of(p: PlayerState) -> LeaderboardEntry {
    LeaderboardEntry { player: p.player, points: p.points }
}

/// A leaderboard the system itself built: at most [`LEADERBOARD_SIZE`]
/// entries, ranked descending.
pub open spec fn leaderboard_wf(lb: Leaderboard) -> bool {
    &&& lb.entries@.len() <= LEADERBOARD_SIZE
    &&& sorted_desc(lb.entries@)
}

/// Sorts the standings by points, best first, returning a permutation.
fn sort_entries_desc(v: Vec<LeaderboardEntry>) -> (out: Vec<LeaderboardEntry>)
    ensures
        out@.to_multiset() == v@.to_multiset(),
        out@.len() == v@.len(),
        sorted_desc(out@),
{
    let mut rest = v;
    let mut out: Vec<LeaderboardEntry> = Vec::new();
    let ghost all = rest@;
    while rest.len() > 0
        invariant
            out@.to_multiset().add(rest@.to_multiset()) == all.to_multiset(),
            out@.len() + rest@.len() == all.len(),
            sorted_desc(out@),
            forall|i: int, j: int|
                0 <= i < out@.len() && 0 <= j < rest@.len() ==> out@[i].points >= rest@[j].points,
        decreases rest.len(),
    {
        let mut mi: usize = 0;
        let mut k: usize = 1;
        while k < rest.len()
            invariant
                0 < rest@.len(),
                mi < k <= rest@.len(),
                forall|j: int| 0 <= j < k ==> rest@[mi as int].points >= rest@[j].points,
            decreases rest@.len() - k,
        {
            if rest[k].points > rest[mi].points {
                mi = k;
            }
            k = k + 1;
        }
        let picked = rest[mi];
        let ghost rest_before = rest@;
        out.push(picked);
        rest.remove(mi);
        proof {
            assert(rest@ == rest_before.remove(mi as int));
            assert(out@.to_multiset().add(rest@.to_multiset()) =~= all.to_multiset());
            assert forall|j: int| 0 <= j < rest@.len() implies picked.points >= rest@[j].points by {
                if j < mi {
                    assert(rest@[j] == rest_before[j]);
                } else {
                    assert(rest@[j] == rest_before[j + 1]);
                }
            }
        }
    }
    out
}

/// What a correct reveal leaves behind: some full descending ordering
/// `witness` of everyone's standings, of which the stored entries are the
/// leading [`LEADERBOARD_SIZE`] rows.
pub open spec fn is_reveal_of(
    entries: Seq<LeaderboardEntry>,
    players: Seq<PlayerState>,
    witness: Seq<LeaderboardEntry>,
) -> bool {
    &&& witness.to_multiset() == players.map_values(|p: PlayerState| standing_of(p)).to_multiset()
    &&& witness.len() == players.len()
    &&& sorted_desc(witness)
    &&& entries == if witness.len() <= LEADERBOARD_SIZE {
        witness
    } else {
        witness.take(LEADERBOARD_SIZE as int)
    }
}

/// Reveals the leaderboard once the reveal timestamp has passed: scans the
/// handed-in session records of the round, ranks them by points descending,
/// freezes the top [`LEADERBOARD_SIZE`] and flips the one-way reveal flag.
/// A second call fails with `LeaderboardAlreadyRevealed`.
pub fn reveal_leaderboard(
    round: &GameRound,
    lb: &mut Leaderboard,
    players: &Vec<PlayerState>,
    now: i64,
) -> (r: Result<(), PandaBattleError>)
    ensures
        match r {
            Ok(()) => {
                &&& round.is_active
                &&& now >= round.leaderboard_reveal_ts
                &&& !old(lb).is_revealed
                &&& forall|i: int| 0 <= i < players@.len() ==> (#[trigger] players@[i]).round
                    == round.round_number
                &&& final(lb).is_revealed
                &&& final(lb).round == round.round_number
                &&& leaderboard_wf(*final(lb))
                &&& exists|witness: Seq<LeaderboardEntry>|
                    is_reveal_of(final(lb).entries@, players@, witness)
            },
            Err(e) => {
                &&& *final(lb) == *old(lb)
                &&& (e == PandaBattleError::RoundNotActive && !round.is_active) || (e
                    == PandaBattleError::LeaderboardNotReady && round.is_active && now
                    < round.leaderboard_reveal_ts) || (e
                    == PandaBattleError::LeaderboardAlreadyRevealed && round.is_active && now
                    >= round.leaderboard_reveal_ts && old(lb).is_revealed) || (e
                    == PandaBattleError::InvalidRound && round.is_active && now
                    >= round.leaderboard_reveal_ts && !old(lb).is_revealed && exists|i: int|
                    0 <= i < players@.len() && (#[trigger] players@[i]).round
                        != round.round_number)
            },
        },
{
    if !round.is_active {
        return Err(PandaBattleError::RoundNotActive);
    }
    if now < round.leaderboard_reveal_ts {
        return Err(PandaBattleError::LeaderboardNotReady);
    }
    if lb.is_revealed {
        return Err(PandaBattleError::LeaderboardAlreadyRevealed);
    }
    let mut standings: Vec<LeaderboardEntry> = Vec::new();
    let mut i: usize = 0;
    while i < players.len()
        invariant
            round.is_active,
            now >= round.leaderboard_reveal_ts,
            !old(lb).is_revealed,
            *lb == *old(lb),
            i <= players@.len(),
            standings@.len() == i,
            forall|j: int| 0 <= j < i ==> standings@[j] == standing_of(#[trigger] players@[j]),
            forall|j: int| 0 <= j < i ==> (#[trigger] players@[j]).round == round.round_number,
        decreases players@.len() - i,
    {
        let p = &players[i];
        if p.round != round.round_number {
            proof {
                assert((players@[i as int]).round != round.round_number);
            }
            return Err(PandaBattleError::InvalidRound);
        }
        standings.push(LeaderboardEntry { player: p.player, points: p.points });
        i = i + 1;
    }
    proof {
        assert(standings@ =~= players@.map_values(|p: PlayerState| standing_of(p)));
    }
    let mut sorted = sort_entries_desc(standings);
    let ghost witness = sorted@;
    if sorted.len() > LEADERBOARD_SIZE {
        sorted.truncate(LEADERBOARD_SIZE);
        proof {
            assert(sorted@ =~= witness.take(LEADERBOARD_SIZE as int));
        }
    }
    lb.entries = sorted;
    lb.is_revealed = true;
    lb.round = round.round_number;
    proof {
        assert(is_reveal_of(lb.entries@, players@, witness));
    }
    Ok(())
}

// ============== PRIZE DISTRIBUTION ==============

/// Sum of the points of all leaderboard entries.
pub open spec fn sum_points(entries: Seq<LeaderboardEntry>) -> int
    decreases entries.len(),
{
    if entries.len() == 0 {
        0
    } else {
        sum_points(entries.drop_last()) + entries.last().points
    }
}

/// Points of `player`'s first entry, if the player stands on the board.
pub open spec fn entry_points_for(entries: Seq<LeaderboardEntry>, player: u64) -> Option<u16>
    decreases entries.len(),
{
    if entries.len() == 0 {
        None
    } else if entries.first().player == player {
        Some(entries.first().points)
    } else {
        entry_points_for(entries.drop_first(), player)
    }
}

/// How many of the handed-in records belong to players off the board.
pub open spec fn rest_count(players: Seq<PlayerState>, entries: Seq<LeaderboardEntry>) -> int
    decreases players.len(),
{
    if players.len() == 0 {
        0
    } else {
        rest_count(players.drop_last(), entries) + if entry_points_for(
            entries,
            players.last().player,
        ) is Some {
            0int
        } else {
            1int
        }
    }
}

/// Share of the top pool owed to `pts` points out of `total`: proportional,
/// rounded down, zero when nobody scored.
pub open spec fn top20_share(top_pool: int, pts: int, total: int) -> int {
    if total > 0 {
        top_pool * pts / total
    } else {
        0
    }
}

/// The prize share one record receives: board players split the top pool by
/// points, everyone else splits the rest pool evenly.
pub open spec fn share_for(
    p: PlayerState,
    entries: Seq<LeaderboardEntry>,
    top_pool: int,
    total: int,
    rest_pool: int,
    nrest: int,
) -> int {
    match entry_points_for(entries, p.player) {
        Some(pts) => top20_share(top_pool, pts as int, total),
        None => if nrest > 0 {
            rest_pool / nrest
        } else {
            0
        },
    }
}

/// When prize distribution may run: the round must be over, not yet paid
/// out, and the leaderboard revealed.
pub open spec fn distribute_allowed(g: GameRound, leaderboard_revealed: bool) -> bool {
    &&& !g.is_active
    &&& !g.payouts_processed
    &&& leaderboard_revealed
}

/// True when some checked multiplication of the distribution would wrap.
pub open spec fn distribute_overflow(
    players: Seq<PlayerState>,
    entries: Seq<LeaderboardEntry>,
    pool: int,
) -> bool {
    ||| pool * 80 > u64::MAX
    ||| (sum_points(entries) > 0 && exists|i: int|
        0 <= i < players.len() && (entry_points_for(
            entries,
            (#[trigger] players[i]).player,
        ) matches Some(pts) && (pool * 80 / 100) * pts > u64::MAX))
}

/// Points of `player`'s first entry on the board, executably.
fn find_entry_points(entries: &Vec<LeaderboardEntry>, player: u64) -> (r: Option<u16>)
    ensures
        r == entry_points_for(entries@, player),
{
    let mut i: usize = 0;
    proof {
        assert(entries@.skip(0) =~= entries@);
    }
    while i < entries.len()
        invariant
            i <= entries@.len(),
            entry_points_for(entries@, player) == entry_points_for(
                entries@.skip(i as int),
                player,
            ),
        decreases entries@.len() - i,
    {
        if entries[i].player == player {
            proof {
                assert(entries@.skip(i as int).first() == entries@[i as int]);
            }
            return Some(entries[i].points);
        }
        proof {
            assert(entries@.skip(i as int).drop_first() =~= entries@.skip(i as int + 1));
        }
        i = i + 1;
    }
    proof {
        assert(entries@.skip(entries@.len() as int).len() == 0);
    }
    None
}

/// Sums the board's points; at most `LEADERBOARD_SIZE * u16::MAX`, so the
/// sum always fits.
fn total_points(entries: &Vec<LeaderboardEntry>) -> (t: u64)
    requires
        entries@.len() <= LEADERBOARD_SIZE,
    ensures
        t == sum_points(entries@),
        t <= LEADERBOARD_SIZE * (u16::MAX as int),
{
    let mut t: u64 = 0;
    let mut i: usize = 0;
    while i < entries.len()
        invariant
            i <= entries@.len() <= LEADERBOARD_SIZE,
            t == sum_points(entries@.take(i as int)),
            t <= i * (u16::MAX as int),
        decreases entries@.len() - i,
    {
        proof {
            assert(entries@.take(i as int + 1).drop_last() =~= entries@.take(i as int));
            assert(entries@.take(i as int + 1).last() == entries@[i as int]);
        }
        t = t + entries[i].points as u64;
        i = i + 1;
    }
    proof {
        assert(entries@.take(entries@.len() as int) =~= entries@);
    }
    t
}

/// Counts the handed-in records whose player is off the board.
fn count_rest(players: &Vec<PlayerState>, entries: &Vec<LeaderboardEntry>) -> (n: u64)
    ensures
        n == rest_count(players@, entries@),
        n <= players@.len(),
{
    let mut n: u64 = 0;
    let mut i: usize = 0;
    while i < players.len()
        invariant
            i <= players@.len(),
            n == rest_count(players@.take(i as int), entries@),
            n <= i,
        decreases players@.len() - i,
    {
        proof {
            assert(players@.take(i as int + 1).drop_last() =~= players@.take(i as int));
            assert(players@.take(i as int + 1).last() == players@[i as int]);
        }
        if find_entry_points(entries, players[i].player).is_none() {
            n = n + 1;
        }
        i = i + 1;
    }
    proof {
        assert(players@.take(players@.len() as int) =~= players@);
    }
    n
}

/// Distributes the prize pool once the round is over and the leaderboard
/// revealed: eighty percent goes to the board's players in proportion to
/// their points, the remainder is split evenly among everyone else, and
/// every share is written back to its session record. Sets the one-way
/// `payouts_processed` flag; a second call fails with `AlreadyClaimed` and
/// rewrites nothing.
pub fn distribute_prizes(
    round: &mut GameRound,
    lb: &Leaderboard,
    players: &mut Vec<PlayerState>,
) -> (r: Result<(), PandaBattleError>)
    requires
        leaderboard_wf(*lb),
    ensures
        match r {
            Ok(()) => {
                let pool = old(round).prize_pool as int;
                let top_pool = pool * 80 / 100;
                let total = sum_points(lb.entries@);
                let rest_pool = pool - top_pool;
                let nrest = rest_count(old(players)@, lb.entries@);
                &&& distribute_allowed(*old(round), lb.is_revealed)
                &&& !distribute_overflow(old(players)@, lb.entries@, pool)
                &&& *final(round) == (GameRound { payouts_processed: true, ..*old(round) })
                &&& final(players)@.len() == old(players)@.len()
                &&& forall|i: int|
                    0 <= i < old(players)@.len() ==> final(players)@[i] == (PlayerState {
                        prize_share: share_for(
                            #[trigger] old(players)@[i],
                            lb.entries@,
                            top_pool,
                            total,
                            rest_pool,
                            nrest,
                        ) as u64,
                        ..old(players)@[i]
                    })
            },
            Err(e) => {
                &&& *final(round) == *old(round)
                &&& final(players)@ == old(players)@
                &&& (e == PandaBattleError::RoundNotEnded && old(round).is_active) || (e
                    == PandaBattleError::AlreadyClaimed && !old(round).is_active && old(
                    round,
                ).payouts_processed) || (e == PandaBattleError::LeaderboardNotRevealed && !old(
                    round,
                ).is_active && !old(round).payouts_processed && !lb.is_revealed) || (e
                    == PandaBattleError::Overflow && distribute_allowed(*old(round), lb.is_revealed)
                    && distribute_overflow(old(players)@, lb.entries@, old(round).prize_pool as int))
            },
        },
{
    if round.is_active {
        return Err(PandaBattleError::RoundNotEnded);
    }
    if round.payouts_processed {
        return Err(PandaBattleError::AlreadyClaimed);
    }
    if !lb.is_revealed {
        return Err(PandaBattleError::LeaderboardNotRevealed);
    }
    proof {
        vstd::arithmetic::div_mod::lemma_fundamental_div_mod(u64::MAX as int, 80);
    }
    if round.prize_pool > u64::MAX / 80 {
        return Err(PandaBattleError::Overflow);
    }
    let scaled: u64 = round.prize_pool * 80;
    let top_pool: u64 = scaled / 100;
    proof {
        vstd::arithmetic::div_mod::lemma_div_is_ordered(
            round.prize_pool * 80,
            round.prize_pool * 100,
            100,
        );
        vstd::arithmetic::div_mod::lemma_div_by_multiple(round.prize_pool as int, 100);
        assert((round.prize_pool as int) * 100 / 100 == round.prize_pool as int);
    }
    let rest_pool: u64 = round.prize_pool - top_pool;
    let total: u64 = total_points(&lb.entries);
    let nrest: u64 = count_rest(players, &lb.entries);
    let ghost pool_i = round.prize_pool as int;
    let mut shares: Vec<u64> = Vec::new();
    let mut i: usize = 0;
    while i < players.len()
        invariant
            *round == *old(round),
            !round.is_active,
            !round.payouts_processed,
            lb.is_revealed,
            pool_i == round.prize_pool as int,
            pool_i * 80 <= u64::MAX,
            top_pool as int == pool_i * 80 / 100,
            rest_pool as int == pool_i - top_pool,
            total as int == sum_points(lb.entries@),
            nrest as int == rest_count(players@, lb.entries@),
            players@ == old(players)@,
            i <= players@.len(),
            shares@.len() == i,
            forall|j: int|
                0 <= j < i ==> shares@[j] as int == share_for(
                    #[trigger] players@[j],
                    lb.entries@,
                    top_pool as int,
                    total as int,
                    rest_pool as int,
                    nrest as int,
                ),
            forall|j: int|
                0 <= j < i ==> !(entry_points_for(
                    lb.entries@,
                    (#[trigger] players@[j]).player,
                ) matches Some(pts) && total > 0 && (top_pool as int) * pts > u64::MAX),
        decreases players@.len() - i,
    {
        let sh: u64;
        match find_entry_points(&lb.entries, players[i].player) {
            Some(pts) => {
                if total > 0 {
                    proof {
                        assert((top_pool as int) * (pts as int) < 0x100000000000000000000int)
                            by (nonlinear_arith)
                            requires
                                0 <= top_pool <= 0xffffffffffffffffint,
                                0 <= pts <= 0xffffint,
                        ;
                    }
                    let prod: u128 = (top_pool as u128) * (pts as u128);
                    if prod > u64::MAX as u128 {
                        proof {
                            assert(entry_points_for(
                                lb.entries@,
                                players@[i as int].player,
                            ) matches Some(p) && (pool_i * 80 / 100) * p > u64::MAX);
                            assert(distribute_overflow(players@, lb.entries@, pool_i));
                        }
                        return Err(PandaBattleError::Overflow);
                    }
                    proof {
                        vstd::arithmetic::div_mod::lemma_div_nonincreasing(
                            prod as int,
                            total as int,
                        );
                    }
                    sh = (prod / (total as u128)) as u64;
                } else {
                    sh = 0;
                }
            },
            None => {
                sh = if nrest > 0 {
                    rest_pool / nrest
                } else {
                    0
                };
            },
        }
        shares.push(sh);
        i = i + 1;
    }
    proof {
        assert(!distribute_overflow(players@, lb.entries@, pool_i));
    }
    let ghost players0 = players@;
    let mut k: usize = 0;
    while k < players.len()
        invariant
            players@.len() == players0.len(),
            shares@.len() == players0.len(),
            k <= players0.len(),
            forall|j: int|
                0 <= j < k ==> players@[j] == (PlayerState {
                    prize_share: shares@[j],
                    ..#[trigger] players0[j]
                }),
            forall|j: int| k <= j < players0.len() ==> players@[j] == players0[j],
        decreases players0.len() - k,
    {
        let mut q: PlayerState = players[k];
        q.prize_share = shares[k];
        players.set(k, q);
        k = k + 1;
    }
    round.payouts_processed = true;
    Ok(())
}

// ============== DISTRIBUTION LAWS ==============

/// Law: a state that a successful distribution leaves behind refuses a
/// second run. Together with the error clause of [`distribute_prizes`] —
/// every failing call leaves the round and every prize share untouched —
/// running the distribution twice can neither double-pay nor rewrite a
/// share.
pub proof fn lemma_payout_idempotent(g: GameRound, leaderboard_revealed: bool)
    requires
        g.payouts_processed,
    ensures
        !distribute_allowed(g, leaderboard_revealed),
{
}

/// Floor division distributes sub-additively over addition.
proof fn lemma_div_add_le(a: int, b: int, d: int)
    requires
        d > 0,
        a >= 0,
        b >= 0,
    ensures
        a / d + b / d <= (a + b) / d,
{
    vstd::arithmetic::div_mod::lemma_fundamental_div_mod(a, d);
    vstd::arithmetic::div_mod::lemma_fundamental_div_mod(b, d);
    vstd::arithmetic::div_mod::lemma_fundamental_div_mod(a + b, d);
    vstd::arithmetic::div_mod::lemma_mod_bound(a, d);
    vstd::arithmetic::div_mod::lemma_mod_bound(b, d);
    vstd::arithmetic::div_mod::lemma_mod_bound(a + b, d);
    assert(a / d + b / d <= (a + b) / d) by (nonlinear_arith)
        requires
            d > 0,
            a == d * (a / d) + a % d,
            b == d * (b / d) + b % d,
            a + b == d * ((a + b) / d) + (a + b) % d,
            0 <= a % d,
            0 <= b % d,
            (a + b) % d < d,
    ;
}

/// The board's points never sum below zero.
proof fn lemma_sum_points_nonneg(entries: Seq<LeaderboardEntry>)
    ensures
        sum_points(entries) >= 0,
    decreases entries.len(),
{
    if entries.len() > 0 {
        lemma_sum_points_nonneg(entries.drop_last());
    }
}

/// Sum of the proportional shares of all board entries.
pub open spec fn sum_top20_shares(entries: Seq<LeaderboardEntry>, top_pool: int, total: int) -> int
    decreases entries.len(),
{
    if entries.len() == 0 {
        0
    } else {
        sum_top20_shares(entries.drop_last(), top_pool, total) + top20_share(
            top_pool,
            entries.last().points as int,
            total,
        )
    }
}

/// The share sum scales with the point sum: floors only ever lose value.
proof fn lemma_top20_sum_le_scaled(entries: Seq<LeaderboardEntry>, top_pool: int, total: int)
    requires
        top_pool >= 0,
        total > 0,
    ensures
        sum_top20_shares(entries, top_pool, total) <= top_pool * sum_points(entries) / total,
    decreases entries.len(),
{
    if entries.len() == 0 {
        assert(top_pool * 0 == 0);
    } else {
        let pre = entries.drop_last();
        let pts = entries.last().points as int;
        lemma_top20_sum_le_scaled(pre, top_pool, total);
        lemma_sum_points_nonneg(pre);
        vstd::arithmetic::mul::lemma_mul_nonnegative(top_pool, sum_points(pre));
        vstd::arithmetic::mul::lemma_mul_nonnegative(top_pool, pts);
        lemma_div_add_le(top_pool * sum_points(pre), top_pool * pts, total);
        vstd::arithmetic::mul::lemma_mul_is_distributive_add(top_pool, sum_points(pre), pts);
    }
}

/// Law: the proportional split never overdraws the top pool — the floored
/// shares of the board's entries sum to at most the pool, with equality
/// exactly when no flooring loses value.
pub proof fn lemma_top20_shares_bounded(entries: Seq<LeaderboardEntry>, top_pool: int)
    requires
        top_pool >= 0,
        sum_points(entries) > 0,
    ensures
        sum_top20_shares(entries, top_pool, sum_points(entries)) <= top_pool,
{
    let total = sum_points(entries);
    lemma_top20_sum_le_scaled(entries, top_pool, total);
    vstd::arithmetic::div_mod::lemma_div_by_multiple(top_pool, total);
}

/// Each share is exact when the point total divides the pool: no flooring
/// loses value.
proof fn lemma_top20_sum_exact_scaled(entries: Seq<LeaderboardEntry>, top_pool: int, total: int)
    requires
        total > 0,
        top_pool % total == 0,
    ensures
        sum_top20_shares(entries, top_pool, total) == (top_pool / total) * sum_points(entries),
    decreases entries.len(),
{
    let q = top_pool / total;
    if entries.len() == 0 {
        assert(q * 0 == 0);
    } else {
        let pre = entries.drop_last();
        let pts = entries.last().points as int;
        lemma_top20_sum_exact_scaled(pre, top_pool, total);
        vstd::arithmetic::div_mod::lemma_fundamental_div_mod(top_pool, total);
        assert(top_pool * pts == total * (q * pts)) by (nonlinear_arith)
            requires
                top_pool == total * q,
        ;
        vstd::arithmetic::div_mod::lemma_div_multiples_vanish(q * pts, total);
        vstd::arithmetic::mul::lemma_mul_is_distributive_add(q, sum_points(pre), pts);
    }
}

/// Law: when the board's point total divides the top pool evenly, the
/// proportional shares sum to exactly the pool — nothing is lost.
pub proof fn lemma_top20_shares_exact(entries: Seq<LeaderboardEntry>, top_pool: int)
    requires
        top_pool >= 0,
        sum_points(entries) > 0,
        top_pool % sum_points(entries) == 0,
    ensures
        sum_top20_shares(entries, top_pool, sum_points(entries)) == top_pool,
{
    let total = sum_points(entries);
    lemma_top20_sum_exact_scaled(entries, top_pool, total);
    vstd::arithmetic::div_mod::lemma_fundamental_div_mod(top_pool, total);
    assert((top_pool / total) * total == top_pool) by (nonlinear_arith)
        requires
            top_pool == total * (top_pool / total) + top_pool % total,
            top_pool % total == 0,
    ;
}

/// Law: the equal split never overdraws the rest pool — `n` players each
/// taking `rest_pool / n` draw at most `rest_pool` in all.
pub proof fn lemma_rest_shares_bounded(rest_pool: int, n: int)
    requires
        rest_pool >= 0,
        n > 0,
    ensures
        n * (rest_pool / n) <= rest_pool,
{
    vstd::arithmetic::div_mod::lemma_fundamental_div_mod(rest_pool, n);
    vstd::arithmetic::div_mod::lemma_mod_bound(rest_pool, n);
}

// ============== HOURLY JACKPOT ==============

/// The cheap entropy the jackpot draw mixes from the client seed, the
/// clock and the slot. This is an engagement mechanic, deliberately not
/// run through the randomness oracle that battles use: nothing
/// fairness-critical rides on it.
pub open spec fn jackpot_entropy(client_seed: u8, now: i64, slot: u64) -> u64 {
    vstd::wrapping::u64_specs::wrapping_mul(
        vstd::wrapping::u64_specs::wrapping_mul(client_seed as u64, now as u64),
        slot,
    )
}

/// Total weight of the first `k` of `n` ranks under inverse-rank
/// weighting: the best rank weighs `n`, the worst weighs 1.
pub open spec fn cum_weight(n: int, k: int) -> int
    decreases k,
{
    if k <= 0 {
        0
    } else {
        cum_weight(n, k - 1) + (n - (k - 1))
    }
}

/// The cumulative weights stay between `k` and `k * n`.
proof fn lemma_cum_weight_bounds(n: int, k: int)
    requires
        0 <= k <= n,
    ensures
        k <= cum_weight(n, k) <= k * n,
    decreases k,
{
    if k > 0 {
        lemma_cum_weight_bounds(n, k - 1);
        assert(cum_weight(n, k - 1) + (n - (k - 1)) <= k * n) by (nonlinear_arith)
            requires
                0 < k <= n,
                cum_weight(n, k - 1) <= (k - 1) * n,
        ;
    }
}

/// Picks the hourly jackpot winner from the revealed board by
/// inverse-rank weighting and sizes the payout between half and one
/// percent of the pool. Returns the winning rank's index and the amount;
/// the caller owes the vault-to-winner transfer.
pub fn hourly_jackpot(
    round: &GameRound,
    lb: &Leaderboard,
    client_seed: u8,
    now: i64,
    slot: u64,
) -> (r: Result<(usize, u64), PandaBattleError>)
    requires
        leaderboard_wf(*lb),
        0 <= now,
    ensures
        match r {
            Ok(pick) => {
                let n = lb.entries@.len() as int;
                let e = jackpot_entropy(client_seed, now, slot) as int;
                let rv = e % cum_weight(n, n);
                let pct = 50 + e % 51;
                &&& round.is_active
                &&& lb.is_revealed
                &&& now >= round.leaderboard_reveal_ts
                &&& n > 0
                &&& 0 <= pick.0 < n
                &&& cum_weight(n, pick.0 as int) <= rv < cum_weight(n, pick.0 as int + 1)
                &&& (round.prize_pool as int) * pct <= u64::MAX
                &&& pick.1 == (round.prize_pool as int) * pct / 10000
            },
            Err(e) => {
                &&& (e == PandaBattleError::RoundNotActive && !round.is_active) || (e
                    == PandaBattleError::LeaderboardNotRevealed && round.is_active
                    && !lb.is_revealed) || (e == PandaBattleError::LeaderboardNotReady
                    && round.is_active && lb.is_revealed && now < round.leaderboard_reveal_ts) || (
                e == PandaBattleError::EmptyLeaderboard && round.is_active && lb.is_revealed && now
                    >= round.leaderboard_reveal_ts && lb.entries@.len() == 0) || (e
                    == PandaBattleError::Overflow && round.is_active && lb.is_revealed && now
                    >= round.leaderboard_reveal_ts && lb.entries@.len() > 0 && (round.prize_pool
                    as int) * (50 + (jackpot_entropy(client_seed, now, slot) as int) % 51)
                    > u64::MAX)
            },
        },
{
    if !round.is_active {
        return Err(PandaBattleError::RoundNotActive);
    }
    if !lb.is_revealed {
        return Err(PandaBattleError::LeaderboardNotRevealed);
    }
    if now < round.leaderboard_reveal_ts {
        return Err(PandaBattleError::LeaderboardNotReady);
    }
    let n: usize = lb.entries.len();
    if n == 0 {
        return Err(PandaBattleError::EmptyLeaderboard);
    }
    let entropy: u64 = (client_seed as u64).wrapping_mul(now as u64).wrapping_mul(slot);
    let mut total_w: u64 = 0;
    let mut k: usize = 0;
    while k < n
        invariant
            k <= n <= LEADERBOARD_SIZE,
            total_w as int == cum_weight(n as int, k as int),
            k <= total_w <= 400,
        decreases n - k,
    {
        proof {
            lemma_cum_weight_bounds(n as int, k as int + 1);
            assert((k as int + 1) * (n as int) <= 400) by (nonlinear_arith)
                requires
                    0 <= k < n <= 20,
            ;
        }
        total_w = total_w + (n - k) as u64;
        k = k + 1;
    }
    let rv: u64 = entropy % total_w;
    let mut idx: usize = 0;
    let mut cum: u64 = 0;
    while idx < n && rv >= cum + (n - idx) as u64
        invariant
            n <= LEADERBOARD_SIZE,
            idx <= n,
            cum as int == cum_weight(n as int, idx as int),
            cum <= 400,
            rv >= cum,
            rv < cum_weight(n as int, n as int),
        decreases n - idx,
    {
        proof {
            lemma_cum_weight_bounds(n as int, idx as int + 1);
            assert((idx as int + 1) * (n as int) <= 400) by (nonlinear_arith)
                requires
                    0 <= idx < n <= 20,
            ;
        }
        cum = cum + (n - idx) as u64;
        idx = idx + 1;
    }
    proof {
        if idx == n as usize {
            assert(false);
        }
    }
    let pct: u64 = 50 + entropy % 51;
    proof {
        assert((round.prize_pool as int) * (pct as int) < 0x100000000000000000000int)
            by (nonlinear_arith)
            requires
                0 <= round.prize_pool <= 0xffffffffffffffffint,
                0 <= pct <= 101,
        ;
    }
    let prod: u128 = (round.prize_pool as u128) * (pct as u128);
    if prod > u64::MAX as u128 {
        return Err(PandaBattleError::Overflow);
    }
    proof {
        vstd::arithmetic::div_mod::lemma_div_nonincreasing(prod as int, 10000);
    }
    let amount: u64 = (prod / 10000) as u64;
    Ok((idx, amount))
}

} // verus!
