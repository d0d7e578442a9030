//! Experience, rank and activity counters: what one settled match adds to a
//! participant's profile.
//!
//! Experience is a sum of bonuses, each with its own ceiling, added to the
//! profile with saturation. Counters of matches, stakes and play time are
//! exact: a match that would overflow one of them is refused as a whole.
//!
//! Days and weeks are counted from the epoch of the clock that the caller
//! supplies. The daily and weekly counters start over when a match falls on
//! a later day or week than the last one, and the bonuses for activity go by
//! these counters, so they start over at the same moment.

use crate::achievements::{clear_seasonal, without_seasonal};
use crate::career::{profile_step, ProfileAction};
use crate::error::ErrorCode;
use crate::identity::Identity;
use crate::profile::{PlayerProfile, Rank};
use crate::rating::{
    accept_rating, accepted_rating, rating_gap, rating_lead, Rating, MAX_MU_STEP,
};
use crate::wager::{WagerAccount, WagerStatus};
use vstd::prelude::*;

verus! {

pub const SECONDS_PER_DAY: i64 = 86_400;

pub const SECONDS_PER_WEEK: i64 = 604_800;

/// Experience for a win and for a loss.
pub const WIN_XP: u64 = 100;

pub const LOSS_XP: u64 = 25;

/// One point of experience per this many lamports staked, up to the cap.
pub const WAGER_XP_UNIT: u64 = 10_000_000;

pub const WAGER_XP_CAP: u64 = 200;

/// Ceiling of the bonus for the reported performance.
pub const PERFORMANCE_XP_CAP: u64 = 150;

/// Largest values of the performance metrics that are believed.
pub const MAX_KD_RATIO_HUNDREDTHS: u32 = 5_000;

pub const MAX_ACCURACY_PERCENT: u32 = 100;

pub const MAX_OBJECTIVES: u32 = 100;

pub const MAX_SCORE: u32 = 1_000_000;

/// A win within this many seconds earns the efficiency bonus.
pub const SHORT_MATCH_SECONDS: u64 = 300;

pub const SHORT_MATCH_XP: u64 = 20;

/// From this many matches on one day each further match earns the daily bonus.
pub const DAILY_ACTIVITY_MATCHES: u32 = 3;

pub const DAILY_ACTIVITY_XP: u64 = 30;

/// Bonus for the first match of a day.
pub const FIRST_LOGIN_XP: u64 = 50;

pub const STREAK_XP_PER_WIN: u64 = 10;

pub const STREAK_XP_CAP: u64 = 100;

/// Bonus per rating point by which the beaten opponent was ahead.
pub const UNDERDOG_XP_PER_POINT: u64 = 2;

pub const UNDERDOG_XP_CAP: u64 = 120;

/// Bonuses for every tenth and every hundredth match.
pub const MILESTONE_TEN_XP: u64 = 50;

pub const MILESTONE_HUNDRED_XP: u64 = 500;

/// The most experience one match can earn: the sum of all ceilings.
pub const MAX_XP_PER_MATCH: u64 = 1_320;

/// Experience at which each rank above `Bronze` is reached.
pub const SILVER_XP: u64 = 1_000;

pub const GOLD_XP: u64 = 5_000;

pub const PLATINUM_XP: u64 = 15_000;

pub const DIAMOND_XP: u64 = 40_000;

pub const MASTER_XP: u64 = 100_000;

/// What a participant reports of their play in one match. A value outside
/// its believable range counts for nothing.
#[derive(Clone, Copy, Debug)]
pub struct PerformanceMetrics {
    /// Kills per death, times one hundred.
    pub kd_ratio_hundredths: u32,
    pub accuracy_percent: u32,
    pub objectives: u32,
    pub score: u32,
}

/// One settled match as one participant saw it.
#[derive(Clone, Copy, Debug)]
pub struct MatchOutcome {
    pub won: bool,
    pub stake_lamports: u64,
    pub duration_seconds: u64,
    pub metrics: PerformanceMetrics,
    /// Rating points by which the opponent was ahead before the match; zero
    /// if the opponent was not ahead.
    pub rating_gap: u32,
}

/// The experience one match earned, bonus by bonus.
#[derive(Clone, Copy, Debug, PartialEq, Eq, Structural)]
pub struct XpAward {
    pub base: u64,
    pub wager: u64,
    pub performance: u64,
    pub efficiency: u64,
    pub daily_activity: u64,
    pub first_login: u64,
    pub streak: u64,
    pub underdog: u64,
    pub milestone: u64,
    /// The sum of the nine bonuses.
    pub total: u64,
}

/// The smaller of a value and its ceiling.
pub open spec fn capped(value: int, cap: int) -> int {
    if value < cap {
        value
    } else {
        cap
    }
}

/// The day on which `now` falls, counted from the epoch.
pub open spec fn day_of(now: i64) -> int {
    now as int / 86_400
}

/// The week on which `now` falls, counted from the epoch.
pub open spec fn week_of(now: i64) -> int {
    now as int / 604_800
}

/// The position of a rank in the ascending order of ranks.
pub open spec fn rank_level(rank: Rank) -> int {
    match rank {
        Rank::Bronze => 0,
        Rank::Silver => 1,
        Rank::Gold => 2,
        Rank::Platinum => 3,
        Rank::Diamond => 4,
        Rank::Master => 5,
    }
}

/// The rank that an amount of experience earns.
pub open spec fn rank_for_xp(xp: u64) -> Rank {
    if xp >= MASTER_XP {
        Rank::Master
    } else if xp >= DIAMOND_XP {
        Rank::Diamond
    } else if xp >= PLATINUM_XP {
        Rank::Platinum
    } else if xp >= GOLD_XP {
        Rank::Gold
    } else if xp >= SILVER_XP {
        Rank::Silver
    } else {
        Rank::Bronze
    }
}

/// The higher of two ranks.
pub open spec fn higher_rank(a: Rank, b: Rank) -> Rank {
    if rank_level(b) > rank_level(a) {
        b
    } else {
        a
    }
}

/// The bonus for the reported performance: each believable metric adds its
/// share, an unbelievable one adds nothing, and the sum is capped.
pub open spec fn performance_bonus(metrics: PerformanceMetrics) -> int {
    let kd = if metrics.kd_ratio_hundredths <= MAX_KD_RATIO_HUNDREDTHS {
        metrics.kd_ratio_hundredths as int / 10
    } else {
        0
    };
    let accuracy = if metrics.accuracy_percent <= MAX_ACCURACY_PERCENT {
        metrics.accuracy_percent as int / 2
    } else {
        0
    };
    let objectives = if metrics.objectives <= MAX_OBJECTIVES {
        metrics.objectives as int * 5
    } else {
        0
    };
    let score = if metrics.score <= MAX_SCORE {
        metrics.score as int / 1_000
    } else {
        0
    };
    capped(kd + accuracy + objectives + score, PERFORMANCE_XP_CAP as int)
}

/// The bonus for every tenth and every hundredth match played.
pub open spec fn milestone_bonus(matches_played: int) -> int {
    (if matches_played % 100 == 0 {
        MILESTONE_HUNDRED_XP as int
    } else {
        0
    }) + (if matches_played % 10 == 0 {
        MILESTONE_TEN_XP as int
    } else {
        0
    })
}

/// True when the match is the participant's first on its day: the day of
/// `now` is later than the last day of activity, or nothing was played on it.
pub open spec fn first_of_day(profile: PlayerProfile, now: i64) -> bool {
    day_of(now) > profile.activity_day || profile.daily_matches == 0
}

/// The matches played on the day of `now`, the new one included. A day later
/// than the last day of activity starts from zero.
pub open spec fn daily_matches_after(profile: PlayerProfile, now: i64) -> int {
    if day_of(now) > profile.activity_day {
        1
    } else {
        profile.daily_matches + 1
    }
}

/// The matches played in the week of `now`, the new one included.
pub open spec fn weekly_matches_after(profile: PlayerProfile, now: i64) -> int {
    if week_of(now) > profile.activity_week {
        1
    } else {
        profile.weekly_matches + 1
    }
}

/// Consecutive days of activity after a match at `now`: unchanged by a
/// further match of a day, one more on the day after the last activity, and
/// one after a gap.
pub open spec fn login_streak_after(profile: PlayerProfile, now: i64) -> int {
    if !first_of_day(profile, now) {
        profile.login_streak as int
    } else if day_of(now) == profile.activity_day + 1 {
        profile.login_streak + 1
    } else {
        1
    }
}

/// The winning streak after the match.
pub open spec fn streak_after(profile: PlayerProfile, won: bool) -> int {
    if won {
        profile.current_streak + 1
    } else {
        0
    }
}

/// The experience that a match earns a profile at time `now`.
pub open spec fn xp_award(profile: PlayerProfile, outcome: MatchOutcome, now: i64) -> XpAward {
    let base = if outcome.won {
        WIN_XP
    } else {
        LOSS_XP
    };
    let wager = capped(outcome.stake_lamports as int / 10_000_000, WAGER_XP_CAP as int) as u64;
    let performance = performance_bonus(outcome.metrics) as u64;
    let efficiency = if outcome.won && outcome.duration_seconds <= SHORT_MATCH_SECONDS {
        SHORT_MATCH_XP
    } else {
        0
    };
    let daily_activity = if daily_matches_after(profile, now) >= DAILY_ACTIVITY_MATCHES {
        DAILY_ACTIVITY_XP
    } else {
        0
    };
    let first_login = if first_of_day(profile, now) {
        FIRST_LOGIN_XP
    } else {
        0
    };
    let streak = capped(
        streak_after(profile, outcome.won) * STREAK_XP_PER_WIN,
        STREAK_XP_CAP as int,
    ) as u64;
    let underdog = if outcome.won {
        capped(outcome.rating_gap * UNDERDOG_XP_PER_POINT, UNDERDOG_XP_CAP as int) as u64
    } else {
        0
    };
    let milestone = milestone_bonus(profile.matches_played + 1) as u64;
    XpAward {
        base,
        wager,
        performance,
        efficiency,
        daily_activity,
        first_login,
        streak,
        underdog,
        milestone,
        total: (base + wager + performance + efficiency + daily_activity + first_login + streak
            + underdog + milestone) as u64,
    }
}

/// True when the match would overflow one of the exact counters.
pub open spec fn counters_would_overflow(
    profile: PlayerProfile,
    outcome: MatchOutcome,
    now: i64,
) -> bool {
    ||| profile.matches_played + 1 > u32::MAX
    ||| outcome.won && profile.wins + 1 > u32::MAX
    ||| !outcome.won && profile.losses + 1 > u32::MAX
    ||| streak_after(profile, outcome.won) > u32::MAX
    ||| daily_matches_after(profile, now) > u32::MAX
    ||| weekly_matches_after(profile, now) > u32::MAX
    ||| login_streak_after(profile, now) > u32::MAX
    ||| profile.total_wagered + outcome.stake_lamports > u64::MAX
    ||| profile.total_play_time + outcome.duration_seconds > u64::MAX
}

/// Why `apply_match_result` rejects its input, if it does.
pub open spec fn apply_match_result_check(
    profile: PlayerProfile,
    outcome: MatchOutcome,
    now: i64,
) -> Option<ErrorCode> {
    if counters_would_overflow(profile, outcome, now) {
        Some(ErrorCode::Overflow)
    } else {
        None
    }
}

/// The later of the recorded period and the period of `now`.
pub open spec fn later_period(recorded: i64, current: int) -> int {
    if current > recorded {
        current
    } else {
        recorded as int
    }
}

/// The profile after an accepted match at time `now`, for which the rating
/// `proposed` was worked out.
pub open spec fn settled_profile(
    profile: PlayerProfile,
    outcome: MatchOutcome,
    proposed: Rating,
    now: i64,
) -> PlayerProfile {
    let xp = capped(profile.xp + xp_award(profile, outcome, now).total, u64::MAX as int) as u64;
    let streak = streak_after(profile, outcome.won) as u32;
    PlayerProfile {
        last_active: now,
        rating: accepted_rating(profile.rating, proposed),
        xp,
        rank: higher_rank(profile.rank, rank_for_xp(xp)),
        wins: if outcome.won {
            (profile.wins + 1) as u32
        } else {
            profile.wins
        },
        losses: if outcome.won {
            profile.losses
        } else {
            (profile.losses + 1) as u32
        },
        current_streak: streak,
        max_streak: if streak > profile.max_streak {
            streak
        } else {
            profile.max_streak
        },
        matches_played: (profile.matches_played + 1) as u32,
        total_wagered: (profile.total_wagered + outcome.stake_lamports) as u64,
        total_play_time: (profile.total_play_time + outcome.duration_seconds) as u64,
        daily_matches: daily_matches_after(profile, now) as u32,
        weekly_matches: weekly_matches_after(profile, now) as u32,
        activity_day: later_period(profile.activity_day, day_of(now)) as i64,
        activity_week: later_period(profile.activity_week, week_of(now)) as i64,
        login_streak: login_streak_after(profile, now) as u32,
        ..profile
    }
}

impl Rank {
    /// The position of this rank in the ascending order of ranks.
    pub fn level(&self) -> (level: u8)
        ensures
            level == rank_level(*self),
    {
        match self {
            Rank::Bronze => 0,
            Rank::Silver => 1,
            Rank::Gold => 2,
            Rank::Platinum => 3,
            Rank::Diamond => 4,
            Rank::Master => 5,
        }
    }

    /// The rank at a position of the ascending order, if there is one.
    pub fn from_level(level: u8) -> (rank: Option<Rank>)
        ensures
            match rank {
                Some(rank) => rank_level(rank) == level,
                None => level > 5,
            },
    {
        match level {
            0 => Some(Rank::Bronze),
            1 => Some(Rank::Silver),
            2 => Some(Rank::Gold),
            3 => Some(Rank::Platinum),
            4 => Some(Rank::Diamond),
            5 => Some(Rank::Master),
            _ => None,
        }
    }

    /// The rank that an amount of experience earns.
    pub fn for_xp(xp: u64) -> (rank: Rank)
        ensures
            rank == rank_for_xp(xp),
    {
        if xp >= MASTER_XP {
            Rank::Master
        } else if xp >= DIAMOND_XP {
            Rank::Diamond
        } else if xp >= PLATINUM_XP {
            Rank::Platinum
        } else if xp >= GOLD_XP {
            Rank::Gold
        } else if xp >= SILVER_XP {
            Rank::Silver
        } else {
            Rank::Bronze
        }
    }
}

/// The number of whole periods of `length` seconds from the epoch to `now`,
/// rounded down also before the epoch.
fn period_index(now: i64, length: i64) -> (index: i64)
    requires
        length == SECONDS_PER_DAY || length == SECONDS_PER_WEEK,
    ensures
        index == now as int / length as int,
{
    if now >= 0 {
        now / length
    } else {
        -1 - (-(now + 1)) / length
    }
}

/// The day on which `now` falls, counted from the epoch.
pub fn day_index(now: i64) -> (day: i64)
    ensures
        day == day_of(now),
{
    period_index(now, SECONDS_PER_DAY)
}

/// The week on which `now` falls, counted from the epoch.
pub fn week_index(now: i64) -> (week: i64)
    ensures
        week == week_of(now),
{
    period_index(now, SECONDS_PER_WEEK)
}

/// The smaller of a value and its ceiling.
fn at_most(value: u64, cap: u64) -> (result: u64)
    ensures
        result == capped(value as int, cap as int),
{
    if value < cap {
        value
    } else {
        cap
    }
}

/// Computes `performance_bonus`.
pub fn performance_xp(metrics: &PerformanceMetrics) -> (xp: u64)
    ensures
        xp == performance_bonus(*metrics),
        xp <= PERFORMANCE_XP_CAP,
{
    let kd: u64 = if metrics.kd_ratio_hundredths <= MAX_KD_RATIO_HUNDREDTHS {
        (metrics.kd_ratio_hundredths / 10) as u64
    } else {
        0
    };
    let accuracy: u64 = if metrics.accuracy_percent <= MAX_ACCURACY_PERCENT {
        (metrics.accuracy_percent / 2) as u64
    } else {
        0
    };
    let objectives: u64 = if metrics.objectives <= MAX_OBJECTIVES {
        metrics.objectives as u64 * 5
    } else {
        0
    };
    let score: u64 = if metrics.score <= MAX_SCORE {
        (metrics.score / 1_000) as u64
    } else {
        0
    };
    at_most(kd + accuracy + objectives + score, PERFORMANCE_XP_CAP)
}

/// Computes `xp_award`.
pub fn award_for(profile: &PlayerProfile, outcome: &MatchOutcome, now: i64) -> (award: XpAward)
    ensures
        award == xp_award(*profile, *outcome, now),
        award.total == award.base + award.wager + award.performance + award.efficiency
            + award.daily_activity + award.first_login + award.streak + award.underdog
            + award.milestone,
        award.base <= WIN_XP,
        award.wager <= WAGER_XP_CAP,
        award.performance <= PERFORMANCE_XP_CAP,
        award.efficiency <= SHORT_MATCH_XP,
        award.daily_activity <= DAILY_ACTIVITY_XP,
        award.first_login <= FIRST_LOGIN_XP,
        award.streak <= STREAK_XP_CAP,
        award.underdog <= UNDERDOG_XP_CAP,
        award.milestone <= MILESTONE_TEN_XP + MILESTONE_HUNDRED_XP,
        award.total <= MAX_XP_PER_MATCH,
{
    let new_day = day_index(now) > profile.activity_day;
    let first = new_day || profile.daily_matches == 0;
    let played_today: u64 = if new_day {
        1
    } else {
        profile.daily_matches as u64 + 1
    };
    let streak_now: u64 = if outcome.won {
        profile.current_streak as u64 + 1
    } else {
        0
    };
    let played: u64 = profile.matches_played as u64 + 1;

    let base = if outcome.won {
        WIN_XP
    } else {
        LOSS_XP
    };
    let wager = at_most(outcome.stake_lamports / WAGER_XP_UNIT, WAGER_XP_CAP);
    let performance = performance_xp(&outcome.metrics);
    let efficiency = if outcome.won && outcome.duration_seconds <= SHORT_MATCH_SECONDS {
        SHORT_MATCH_XP
    } else {
        0
    };
    let daily_activity = if played_today >= DAILY_ACTIVITY_MATCHES as u64 {
        DAILY_ACTIVITY_XP
    } else {
        0
    };
    let first_login = if first {
        FIRST_LOGIN_XP
    } else {
        0
    };
    let streak = at_most(streak_now * STREAK_XP_PER_WIN, STREAK_XP_CAP);
    let underdog = if outcome.won {
        at_most(outcome.rating_gap as u64 * UNDERDOG_XP_PER_POINT, UNDERDOG_XP_CAP)
    } else {
        0
    };
    let hundredth = if played % 100 == 0 {
        MILESTONE_HUNDRED_XP
    } else {
        0
    };
    let tenth = if played % 10 == 0 {
        MILESTONE_TEN_XP
    } else {
        0
    };
    let milestone = hundredth + tenth;
    let total = base.saturating_add(wager).saturating_add(performance).saturating_add(
        efficiency,
    ).saturating_add(daily_activity).saturating_add(first_login).saturating_add(
        streak,
    ).saturating_add(underdog).saturating_add(milestone);
    XpAward {
        base,
        wager,
        performance,
        efficiency,
        daily_activity,
        first_login,
        streak,
        underdog,
        milestone,
        total,
    }
}

/// Why a settlement yields no outcome for `own`, if it does not: it is not
/// resolved, or the two profiles are not those of its two participants.
pub open spec fn outcome_check(
    wager: WagerAccount,
    own: PlayerProfile,
    opponent: PlayerProfile,
) -> Option<ErrorCode> {
    if wager.status != WagerStatus::Resolved {
        Some(ErrorCode::InvalidStatus)
    } else if !(own.player == wager.player_a && opponent.player == wager.player_b) && !(own.player
        == wager.player_b && opponent.player == wager.player_a) {
        Some(ErrorCode::InvalidPlayer)
    } else {
        None
    }
}

/// A resolved settlement as one of its participants saw it: they won if they
/// are the recorded winner, they staked the settlement's stake, and the
/// opponent was ahead by what the two ratings say. The duration and the
/// metrics are taken as reported.
pub fn outcome_for(
    wager: &WagerAccount,
    own: &PlayerProfile,
    opponent: &PlayerProfile,
    duration_seconds: u64,
    metrics: PerformanceMetrics,
) -> (result: Result<MatchOutcome, ErrorCode>)
    ensures
        match result {
            Ok(outcome) => {
                &&& outcome_check(*wager, *own, *opponent) is None
                &&& outcome == (MatchOutcome {
                    won: wager.winner == Some(own.player),
                    stake_lamports: wager.stake_lamports,
                    duration_seconds,
                    metrics,
                    rating_gap: rating_lead(own.rating, opponent.rating) as u32,
                })
            },
            Err(e) => outcome_check(*wager, *own, *opponent) == Some(e),
        },
{
    if wager.status != WagerStatus::Resolved {
        return Err(ErrorCode::InvalidStatus);
    }
    let first = own.player == wager.player_a && opponent.player == wager.player_b;
    let second = own.player == wager.player_b && opponent.player == wager.player_a;
    if !first && !second {
        return Err(ErrorCode::InvalidPlayer);
    }
    let won = match &wager.winner {
        Some(winner) => *winner == own.player,
        None => false,
    };
    Ok(
        MatchOutcome {
            won,
            stake_lamports: wager.stake_lamports,
            duration_seconds,
            metrics,
            rating_gap: rating_gap(&own.rating, &opponent.rating),
        },
    )
}

/// Adds one to a counter, or tells that it is full.
fn next_count(counter: u32) -> (next: Result<u32, ErrorCode>)
    ensures
        match next {
            Ok(n) => n == counter + 1,
            Err(e) => e == ErrorCode::Overflow && counter + 1 > u32::MAX,
        },
{
    match counter.checked_add(1) {
        Some(n) => Ok(n),
        None => Err(ErrorCode::Overflow),
    }
}

/// Books one settled match on a profile: the rating, the counters of
/// matches, wins or losses, streaks, stakes, play time and daily and weekly
/// activity, the experience it earned, and the rank that the experience now
/// reaches.
///
/// Of the proposed rating only what the bounds allow is taken over: the mean
/// moves by at most `MAX_MU_STEP`, the uncertainty stays within its band.
/// Experience saturates and never sinks; the rank never sinks. A match that
/// would overflow a counter is refused and changes nothing.
pub fn apply_match_result(
    profile: &mut PlayerProfile,
    outcome: &MatchOutcome,
    proposed_rating: &Rating,
    now: i64,
) -> (result: Result<XpAward, ErrorCode>)
    ensures
        old(profile).wf() ==> final(profile).wf(),
        *final(profile) == profile_step(
            *old(profile),
            ProfileAction::Match { outcome: *outcome, proposed_rating: *proposed_rating, now },
        ),
        -MAX_MU_STEP <= final(profile).rating.mu - old(profile).rating.mu <= MAX_MU_STEP,
        match result {
            Ok(award) => {
                &&& apply_match_result_check(*old(profile), *outcome, now) is None
                &&& award == xp_award(*old(profile), *outcome, now)
                &&& *final(profile) == settled_profile(
                    *old(profile),
                    *outcome,
                    *proposed_rating,
                    now,
                )
                &&& final(profile).rating.in_band()
                &&& final(profile).xp == capped(old(profile).xp + award.total, u64::MAX as int)
                &&& final(profile).xp >= old(profile).xp
                &&& rank_level(final(profile).rank) >= rank_level(old(profile).rank)
                &&& rank_level(final(profile).rank) >= rank_level(rank_for_xp(final(profile).xp))
            },
            Err(e) => {
                &&& apply_match_result_check(*old(profile), *outcome, now) == Some(e)
                &&& *final(profile) == *old(profile)
            },
        },
{
    let day = day_index(now);
    let week = week_index(now);
    let new_day = day > profile.activity_day;
    let new_week = week > profile.activity_week;
    let first = new_day || profile.daily_matches == 0;

    let matches_played = next_count(profile.matches_played)?;
    let wins = if outcome.won {
        next_count(profile.wins)?
    } else {
        profile.wins
    };
    let losses = if outcome.won {
        profile.losses
    } else {
        next_count(profile.losses)?
    };
    let current_streak = if outcome.won {
        next_count(profile.current_streak)?
    } else {
        0
    };
    let daily_matches = if new_day {
        1
    } else {
        next_count(profile.daily_matches)?
    };
    let weekly_matches = if new_week {
        1
    } else {
        next_count(profile.weekly_matches)?
    };
    let login_streak = if !first {
        profile.login_streak
    } else if new_day && day - 1 == profile.activity_day {
        next_count(profile.login_streak)?
    } else {
        1
    };
    let total_wagered = match profile.total_wagered.checked_add(outcome.stake_lamports) {
        Some(sum) => sum,
        None => {
            return Err(ErrorCode::Overflow);
        },
    };
    let total_play_time = match profile.total_play_time.checked_add(outcome.duration_seconds) {
        Some(sum) => sum,
        None => {
            return Err(ErrorCode::Overflow);
        },
    };

    let award = award_for(profile, outcome, now);
    let xp = profile.xp.saturating_add(award.total);
    let earned_rank = Rank::for_xp(xp);

    profile.last_active = now;
    profile.rating = accept_rating(&profile.rating, proposed_rating);
    profile.xp = xp;
    if earned_rank.level() > profile.rank.level() {
        profile.rank = earned_rank;
    }
    profile.wins = wins;
    profile.losses = losses;
    profile.current_streak = current_streak;
    if current_streak > profile.max_streak {
        profile.max_streak = current_streak;
    }
    profile.matches_played = matches_played;
    profile.total_wagered = total_wagered;
    profile.total_play_time = total_play_time;
    profile.daily_matches = daily_matches;
    profile.weekly_matches = weekly_matches;
    if new_day {
        profile.activity_day = day;
    }
    if new_week {
        profile.activity_week = week;
    }
    profile.login_streak = login_streak;
    Ok(award)
}

/// What `season_reset` works on: the profile, the caller, and the platform
/// authority.
pub struct SeasonReset {
    pub player_profile: PlayerProfile,
    pub authorizer: Identity,
    pub authority: Identity,
}

/// Why `season_reset` rejects its input, if it does.
pub open spec fn season_reset_check(authorizer: Identity, authority: Identity) -> Option<
    ErrorCode,
> {
    if authorizer != authority {
        Some(ErrorCode::Unauthorized)
    } else {
        None
    }
}

/// The profile after a season reset: experience and rank start over, and
/// the achievements of the season are open again. Everything else stays.
pub open spec fn reset_profile(profile: PlayerProfile) -> PlayerProfile {
    PlayerProfile {
        xp: 0,
        rank: Rank::Bronze,
        achievements: without_seasonal(profile.achievements),
        ..profile
    }
}

/// Starts a new season on a profile. Only the platform authority may do so.
/// This is the only operation that lowers experience or rank, or clears an
/// achievement.
pub fn season_reset(ctx: &mut SeasonReset) -> (result: Result<(), ErrorCode>)
    ensures
        final(ctx).authorizer == old(ctx).authorizer,
        final(ctx).authority == old(ctx).authority,
        old(ctx).player_profile.wf() ==> final(ctx).player_profile.wf(),
        final(ctx).player_profile == profile_step(
            old(ctx).player_profile,
            ProfileAction::SeasonReset {
                authorizer: old(ctx).authorizer,
                authority: old(ctx).authority,
            },
        ),
        match result {
            Ok(_) => {
                &&& season_reset_check(old(ctx).authorizer, old(ctx).authority) is None
                &&& final(ctx).player_profile == reset_profile(old(ctx).player_profile)
            },
            Err(e) => {
                &&& season_reset_check(old(ctx).authorizer, old(ctx).authority) == Some(e)
                &&& final(ctx).player_profile == old(ctx).player_profile
            },
        },
{
    if ctx.authorizer != ctx.authority {
        return Err(ErrorCode::Unauthorized);
    }
    ctx.player_profile.xp = 0;
    ctx.player_profile.rank = Rank::Bronze;
    ctx.player_profile.achievements = clear_seasonal(ctx.player_profile.achievements);
    Ok(())
}

} // verus!
