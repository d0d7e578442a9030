//! The skill rating of a participant, and the bounds within which one match
//! may move it.
//!
//! A rating is stored in thousandths of a rating point. How a match pulls at
//! a rating is worked out elsewhere; this module decides how much of a
//! proposed rating is accepted: the mean moves by at most `MAX_MU_STEP`, and
//! the uncertainty stays between `MIN_SIGMA` and `MAX_SIGMA`. It also holds
//! the rules of the rating that depend on the number of matches only.

use vstd::prelude::*;

verus! {

/// Stored units per rating point.
pub const RATING_SCALE: i64 = 1_000;

/// The mean of a participant who has not played yet.
pub const BASELINE_MU: i64 = 1_500_000;

/// The band of the uncertainty.
pub const MIN_SIGMA: i64 = 50_000;

pub const MAX_SIGMA: i64 = 350_000;

/// The most a mean may move in one match.
pub const MAX_MU_STEP: i64 = 100_000;

/// Below this many matches a participant counts as a newcomer.
pub const NEWCOMER_MATCHES: u32 = 10;

/// From this many matches on a participant counts as a veteran.
pub const VETERAN_MATCHES: u32 = 100;

/// Beyond this many matches the rating is compressed towards the baseline.
pub const COMPRESSION_MIN_MATCHES: u32 = 200;

/// An estimate of a participant's skill: its mean and its uncertainty, in
/// thousandths of a rating point.
#[derive(Clone, Copy, Debug, PartialEq, Eq, Structural)]
pub struct Rating {
    pub mu: i64,
    pub sigma: i64,
}

/// The value nearest to `value` between `low` and `high`.
pub open spec fn clamped(value: int, low: int, high: int) -> int {
    if value < low {
        low
    } else if value > high {
        high
    } else {
        value
    }
}

impl Rating {
    /// True when the uncertainty is within its band.
    pub open spec fn in_band(&self) -> bool {
        MIN_SIGMA <= self.sigma <= MAX_SIGMA
    }

    /// True of the rating of a participant who has not played yet.
    pub open spec fn is_baseline(&self) -> bool {
        self.mu == BASELINE_MU && self.sigma == MAX_SIGMA
    }

    /// The rating of a participant who has not played yet: the baseline
    /// mean, with the widest uncertainty.
    pub fn baseline() -> (rating: Rating)
        ensures
            rating.is_baseline(),
            rating.in_band(),
    {
        Rating { mu: BASELINE_MU, sigma: MAX_SIGMA }
    }
}

/// What is accepted of a proposed rating: the proposed mean, as far as it is
/// within `MAX_MU_STEP` of the current one, and the proposed uncertainty, as
/// far as it is within the band.
pub open spec fn accepted_rating(current: Rating, proposed: Rating) -> Rating {
    Rating {
        mu: clamped(
            proposed.mu as int,
            current.mu - MAX_MU_STEP,
            current.mu + MAX_MU_STEP,
        ) as i64,
        sigma: clamped(proposed.sigma as int, MIN_SIGMA as int, MAX_SIGMA as int) as i64,
    }
}

/// Computes `accepted_rating`.
pub fn accept_rating(current: &Rating, proposed: &Rating) -> (next: Rating)
    ensures
        next == accepted_rating(*current, *proposed),
        next.in_band(),
        -MAX_MU_STEP <= next.mu - current.mu <= MAX_MU_STEP,
{
    let mut mu = proposed.mu;
    match current.mu.checked_sub(MAX_MU_STEP) {
        Some(lowest) => {
            if mu < lowest {
                mu = lowest;
            }
        },
        None => {},
    }
    match current.mu.checked_add(MAX_MU_STEP) {
        Some(highest) => {
            if mu > highest {
                mu = highest;
            }
        },
        None => {},
    }
    let sigma = if proposed.sigma < MIN_SIGMA {
        MIN_SIGMA
    } else if proposed.sigma > MAX_SIGMA {
        MAX_SIGMA
    } else {
        proposed.sigma
    };
    Rating { mu, sigma }
}

/// The whole rating points by which `other` is ahead of `own`; zero if it is
/// not ahead.
pub open spec fn rating_lead(own: Rating, other: Rating) -> int {
    if other.mu <= own.mu {
        0
    } else {
        clamped((other.mu - own.mu) / 1_000, 0, u32::MAX as int)
    }
}

/// Computes `rating_lead`.
pub fn rating_gap(own: &Rating, other: &Rating) -> (gap: u32)
    ensures
        gap == rating_lead(*own, *other),
{
    if other.mu <= own.mu {
        return 0;
    }
    let points: i128 = (other.mu as i128 - own.mu as i128) / 1_000;
    if points > u32::MAX as i128 {
        u32::MAX
    } else {
        points as u32
    }
}

/// By how many percent of the standard drift a rating's uncertainty grows per
/// match: more for a newcomer, less for a veteran.
pub open spec fn activity_factor_percent(matches_played: u32) -> u32 {
    if matches_played < NEWCOMER_MATCHES {
        150
    } else if matches_played < VETERAN_MATCHES {
        100
    } else {
        50
    }
}

/// Computes `activity_factor_percent`.
pub fn activity_factor(matches_played: u32) -> (percent: u32)
    ensures
        percent == activity_factor_percent(matches_played),
{
    if matches_played < NEWCOMER_MATCHES {
        150
    } else if matches_played < VETERAN_MATCHES {
        100
    } else {
        50
    }
}

/// Tells whether a rating is compressed towards the baseline after a match:
/// it is once the participant has played more than
/// `COMPRESSION_MIN_MATCHES` matches.
pub fn compression_applies(matches_played: u32) -> (applies: bool)
    ensures
        applies == (matches_played > COMPRESSION_MIN_MATCHES),
{
    matches_played > COMPRESSION_MIN_MATCHES
}

/// Whatever is proposed, one match moves the mean by at most `MAX_MU_STEP`
/// and leaves the uncertainty within its band; a proposal within these
/// bounds is accepted as it is.
pub proof fn law_rating_moves_within_bounds(current: Rating, proposed: Rating)
    ensures
        -MAX_MU_STEP <= accepted_rating(current, proposed).mu - current.mu <= MAX_MU_STEP,
        accepted_rating(current, proposed).in_band(),
        proposed.in_band() && -MAX_MU_STEP <= proposed.mu - current.mu <= MAX_MU_STEP
            ==> accepted_rating(current, proposed) == proposed,
{
}

/// The more a participant has played, the less their uncertainty drifts.
pub proof fn law_activity_factor_never_grows(fewer: u32, more: u32)
    requires
        fewer <= more,
    ensures
        activity_factor_percent(fewer) >= activity_factor_percent(more),
        50 <= activity_factor_percent(more) <= 150,
{
}

} // verus!
