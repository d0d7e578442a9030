//! Histories of one profile: what a sequence of attempted operations makes
//! of it, and the laws that hold of every such history.

use crate::achievements::{
    claim_achievement_check, claimed_profile, is_claimed, is_seasonal, lemma_claim_marks_one,
    lemma_reset_unmarks_seasonal, AchievementKind,
};
use crate::error::ErrorCode;
use crate::identity::Identity;
use crate::profile::{
    ban_player_check, banned_profile, initialized_profile, BanPlayer, PlayerProfile,
};
use crate::progression::{
    apply_match_result_check, rank_level, reset_profile, season_reset_check, settled_profile,
    xp_award, MatchOutcome,
    DAILY_ACTIVITY_XP, FIRST_LOGIN_XP, MAX_XP_PER_MATCH, MILESTONE_HUNDRED_XP, MILESTONE_TEN_XP,
    PERFORMANCE_XP_CAP, SHORT_MATCH_XP, STREAK_XP_CAP, UNDERDOG_XP_CAP, WAGER_XP_CAP, WIN_XP,
};
use crate::rating::{Rating, MAX_MU_STEP};
use vstd::prelude::*;

verus! {

/// One attempted operation on a profile, with everything the operation reads
/// besides the profile itself.
pub enum ProfileAction {
    Initialize { player: Identity, now: i64 },
    Ban { authorizer: Identity, authority: Identity, ban_duration: i64, now: i64 },
    Match { outcome: MatchOutcome, proposed_rating: Rating, now: i64 },
    Claim { kind: AchievementKind, now: i64 },
    SeasonReset { authorizer: Identity, authority: Identity },
}

/// The profile after the attempt: changed as the operation says when it is
/// accepted, untouched when it is rejected.
pub open spec fn profile_step(profile: PlayerProfile, action: ProfileAction) -> PlayerProfile {
    match action {
        ProfileAction::Initialize { player, now } => initialized_profile(profile, player, now),
        ProfileAction::Ban { authorizer, authority, ban_duration, now } => {
            if ban_player_check(
                BanPlayer { player_profile: profile, authorizer, authority },
                ban_duration,
                now,
            ) is None {
                banned_profile(profile, ban_duration, now)
            } else {
                profile
            }
        },
        ProfileAction::Match { outcome, proposed_rating, now } => {
            if apply_match_result_check(profile, outcome, now) is None {
                settled_profile(profile, outcome, proposed_rating, now)
            } else {
                profile
            }
        },
        ProfileAction::Claim { kind, now } => {
            if claim_achievement_check(profile, kind, now) is None {
                claimed_profile(profile, kind, now)
            } else {
                profile
            }
        },
        ProfileAction::SeasonReset { authorizer, authority } => {
            if season_reset_check(authorizer, authority) is None {
                reset_profile(profile)
            } else {
                profile
            }
        },
    }
}

/// The profile after the attempts of `actions`, first to last.
pub open spec fn career(profile: PlayerProfile, actions: Seq<ProfileAction>) -> PlayerProfile
    decreases actions.len(),
{
    if actions.len() == 0 {
        profile
    } else {
        profile_step(career(profile, actions.drop_last()), actions.last())
    }
}

/// True when no season reset is attempted in the course of `actions`.
pub open spec fn within_one_season(actions: Seq<ProfileAction>) -> bool {
    forall|i: int| 0 <= i < actions.len() ==> !(#[trigger] actions[i] is SeasonReset)
}

/// The experience of one match is the plain sum of its nine bonuses, each
/// within its ceiling: with every bonus at its ceiling at once the sum is
/// still exact, far from the limit of the counter.
pub proof fn law_award_is_sum_of_capped_bonuses(
    profile: PlayerProfile,
    outcome: MatchOutcome,
    now: i64,
)
    ensures
        ({
            let award = xp_award(profile, outcome, now);
            &&& award.total == award.base + award.wager + award.performance + award.efficiency
                + award.daily_activity + award.first_login + award.streak + award.underdog
                + award.milestone
            &&& award.base <= WIN_XP
            &&& award.wager <= WAGER_XP_CAP
            &&& award.performance <= PERFORMANCE_XP_CAP
            &&& award.efficiency <= SHORT_MATCH_XP
            &&& award.daily_activity <= DAILY_ACTIVITY_XP
            &&& award.first_login <= FIRST_LOGIN_XP
            &&& award.streak <= STREAK_XP_CAP
            &&& award.underdog <= UNDERDOG_XP_CAP
            &&& award.milestone <= MILESTONE_TEN_XP + MILESTONE_HUNDRED_XP
            &&& award.total <= MAX_XP_PER_MATCH
        }),
{
}

/// No attempt breaks the profile's invariant.
pub proof fn lemma_step_keeps_wf(profile: PlayerProfile, action: ProfileAction)
    requires
        profile.wf(),
    ensures
        profile_step(profile, action).wf(),
{
}

/// The invariant of the profile holds after any history.
pub proof fn law_career_keeps_wf(profile: PlayerProfile, actions: Seq<ProfileAction>)
    requires
        profile.wf(),
    ensures
        career(profile, actions).wf(),
    decreases actions.len(),
{
    if actions.len() > 0 {
        law_career_keeps_wf(profile, actions.drop_last());
        lemma_step_keeps_wf(career(profile, actions.drop_last()), actions.last());
    }
}

/// No operation moves the mean of the rating by more than `MAX_MU_STEP` or
/// takes the uncertainty out of its band, and only a match moves the rating
/// at all.
pub proof fn law_rating_moves_by_bounded_steps(profile: PlayerProfile, action: ProfileAction)
    ensures
        -MAX_MU_STEP <= profile_step(profile, action).rating.mu - profile.rating.mu
            <= MAX_MU_STEP,
        !(action is Match) ==> profile_step(profile, action).rating == profile.rating,
        profile.rating.in_band() ==> profile_step(profile, action).rating.in_band(),
{
}

/// Apart from a season reset, no operation lowers experience or rank.
pub proof fn lemma_step_never_lowers_progress(profile: PlayerProfile, action: ProfileAction)
    requires
        !(action is SeasonReset),
    ensures
        profile_step(profile, action).xp >= profile.xp,
        rank_level(profile_step(profile, action).rank) >= rank_level(profile.rank),
{
}

/// No operation clears a claimed achievement, except that a season reset
/// clears the seasonal ones.
pub proof fn lemma_step_keeps_claim(
    profile: PlayerProfile,
    action: ProfileAction,
    kind: AchievementKind,
)
    requires
        is_claimed(profile.achievements, kind),
        is_seasonal(kind) ==> !(action is SeasonReset),
    ensures
        is_claimed(profile_step(profile, action).achievements, kind),
{
    match action {
        ProfileAction::Claim { kind: other, .. } => {
            lemma_claim_marks_one(profile.achievements, other, kind);
        },
        ProfileAction::SeasonReset { .. } => {
            lemma_reset_unmarks_seasonal(profile.achievements, kind);
        },
        _ => {},
    }
}

/// Experience and rank never sink within a season: after any history
/// without a season reset both are at least what they were.
pub proof fn law_progress_never_sinks(profile: PlayerProfile, actions: Seq<ProfileAction>)
    requires
        within_one_season(actions),
    ensures
        career(profile, actions).xp >= profile.xp,
        rank_level(career(profile, actions).rank) >= rank_level(profile.rank),
    decreases actions.len(),
{
    if actions.len() > 0 {
        let earlier = actions.drop_last();
        assert forall|i: int| 0 <= i < earlier.len() implies !(#[trigger] earlier[i]
            is SeasonReset) by {
            assert(earlier[i] == actions[i]);
        }
        law_progress_never_sinks(profile, earlier);
        lemma_step_never_lowers_progress(career(profile, earlier), actions.last());
    }
}

/// A claimed achievement stays claimed through any history; for a seasonal
/// achievement, through any history without a season reset.
pub proof fn law_claimed_stays_claimed(
    profile: PlayerProfile,
    actions: Seq<ProfileAction>,
    kind: AchievementKind,
)
    requires
        is_claimed(profile.achievements, kind),
        is_seasonal(kind) ==> within_one_season(actions),
    ensures
        is_claimed(career(profile, actions).achievements, kind),
    decreases actions.len(),
{
    if actions.len() > 0 {
        let earlier = actions.drop_last();
        if is_seasonal(kind) {
            assert forall|i: int| 0 <= i < earlier.len() implies !(#[trigger] earlier[i]
                is SeasonReset) by {
                assert(earlier[i] == actions[i]);
            }
            assert(!(actions[actions.len() - 1] is SeasonReset));
        }
        law_claimed_stays_claimed(profile, earlier, kind);
        lemma_step_keeps_claim(career(profile, earlier), actions.last(), kind);
    }
}

/// An achievement is claimed at most once: after an accepted claim, and
/// whatever happens to the profile in between, every further claim of the
/// same kind is rejected as already claimed, at any time and however well
/// the profile meets the thresholds. For a seasonal achievement this holds
/// until the next season reset.
pub proof fn law_claim_only_once(
    profile: PlayerProfile,
    kind: AchievementKind,
    now: i64,
    between: Seq<ProfileAction>,
    later: i64,
)
    requires
        claim_achievement_check(profile, kind, now) is None,
        is_seasonal(kind) ==> within_one_season(between),
    ensures
        claim_achievement_check(
            career(claimed_profile(profile, kind, now), between),
            kind,
            later,
        ) == Some(ErrorCode::AlreadyClaimed),
{
    lemma_claim_marks_one(profile.achievements, kind, kind);
    law_claimed_stays_claimed(claimed_profile(profile, kind, now), between, kind);
}

} // verus!
