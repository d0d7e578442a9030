//! Participant profiles: ban state, experience, rank, counters and the
//! achievement mask, with the two operations that administer a profile.

use crate::career::{profile_step, ProfileAction};
use crate::error::ErrorCode;
use crate::identity::Identity;
use crate::progression::rank_for_xp;
use crate::rating::{Rating, BASELINE_MU, MAX_SIGMA};
use vstd::prelude::*;

verus! {

/// The ranks a participant climbs through, lowest first.
#[derive(Clone, Copy, Debug, PartialEq, Eq, Structural)]
pub enum Rank {
    Bronze,
    Silver,
    Gold,
    Platinum,
    Diamond,
    Master,
}

/// The long-lived record of one participant.
#[derive(Clone, Copy, Debug, PartialEq, Eq)]
pub struct PlayerProfile {
    /// Whose profile this is; all zero until the profile is initialized.
    pub player: Identity,
    pub is_banned: bool,
    /// The ban ends when the clock reaches this time.
    pub ban_expires_at: i64,
    pub last_active: i64,
    /// The estimate of the participant's skill.
    pub rating: Rating,
    /// Experience points of the current season.
    pub xp: u64,
    pub rank: Rank,
    pub wins: u32,
    pub losses: u32,
    pub current_streak: u32,
    pub max_streak: u32,
    pub matches_played: u32,
    pub total_wagered: u64,
    /// Seconds spent in settled matches.
    pub total_play_time: u64,
    /// Matches settled on day `activity_day`.
    pub daily_matches: u32,
    /// Matches settled in week `activity_week`.
    pub weekly_matches: u32,
    /// The day, counted from the epoch, of the last settled match.
    pub activity_day: i64,
    /// The week, counted from the epoch, of the last settled match.
    pub activity_week: i64,
    /// Consecutive days with at least one settled match.
    pub login_streak: u32,
    /// One bit per achievement kind, set once claimed.
    pub achievements: u64,
    pub achievements_earned: u32,
    pub last_achievement_claim_time: i64,
}

/// The profile that `initialize_player` touches and the participant who asks.
pub struct InitializePlayer {
    pub player_profile: PlayerProfile,
    pub player: Identity,
}

/// The profile to ban or unban, the caller, and the platform authority.
pub struct BanPlayer {
    pub player_profile: PlayerProfile,
    pub authorizer: Identity,
    pub authority: Identity,
}

/// Announces a change of a participant's ban.
#[derive(Clone, Copy, Debug, PartialEq, Eq)]
pub struct PlayerBanned {
    pub player: Identity,
    pub ban_expires_at: i64,
}

impl PlayerProfile {
    /// What holds of every profile that started blank and that the operations
    /// of this crate changed: every match was won or lost, the current streak
    /// is part of the wins and no longer than the longest, and the rank is
    /// the one that the experience earns.
    pub open spec fn wf(&self) -> bool {
        &&& self.wins + self.losses == self.matches_played
        &&& self.current_streak <= self.wins
        &&& self.current_streak <= self.max_streak
        &&& self.rank == rank_for_xp(self.xp)
    }

    /// True when the participant may not stake at time `now`.
    pub open spec fn banned_at(&self, now: i64) -> bool {
        self.is_banned && self.ban_expires_at > now
    }

    /// Computes `banned_at`.
    pub fn is_banned_at(&self, now: i64) -> (banned: bool)
        ensures
            banned == self.banned_at(now),
    {
        self.is_banned && self.ban_expires_at > now
    }
}

/// The profile of a participant who has not played yet: not banned, rated
/// at the baseline, every counter zero.
pub open spec fn fresh_profile(player: Identity, now: i64) -> PlayerProfile {
    PlayerProfile {
        player,
        is_banned: false,
        ban_expires_at: 0,
        last_active: now,
        rating: Rating { mu: BASELINE_MU, sigma: MAX_SIGMA },
        xp: 0,
        rank: Rank::Bronze,
        wins: 0,
        losses: 0,
        current_streak: 0,
        max_streak: 0,
        matches_played: 0,
        total_wagered: 0,
        total_play_time: 0,
        daily_matches: 0,
        weekly_matches: 0,
        activity_day: 0,
        activity_week: 0,
        login_streak: 0,
        achievements: 0,
        achievements_earned: 0,
        last_achievement_claim_time: 0,
    }
}

impl Default for PlayerProfile {
    /// The blank profile: a fresh profile that is nobody's.
    fn default() -> (profile: PlayerProfile)
        ensures
            profile.player.is_nobody(),
            profile == fresh_profile(profile.player, 0),
            profile.wf(),
    {
        PlayerProfile {
            player: Identity::default(),
            is_banned: false,
            ban_expires_at: 0,
            last_active: 0,
            rating: Rating::baseline(),
            xp: 0,
            rank: Rank::Bronze,
            wins: 0,
            losses: 0,
            current_streak: 0,
            max_streak: 0,
            matches_played: 0,
            total_wagered: 0,
            total_play_time: 0,
            daily_matches: 0,
            weekly_matches: 0,
            activity_day: 0,
            activity_week: 0,
            login_streak: 0,
            achievements: 0,
            achievements_earned: 0,
            last_achievement_claim_time: 0,
        }
    }
}

/// The profile after `initialize_player`: a profile that is nobody's is
/// claimed by `player` and its ban cleared; any profile records `now` as the
/// time of the last activity.
pub open spec fn initialized_profile(profile: PlayerProfile, player: Identity, now: i64) -> PlayerProfile {
    if profile.player.is_nobody() {
        PlayerProfile { player, is_banned: false, ban_expires_at: 0, last_active: now, ..profile }
    } else {
        PlayerProfile { last_active: now, ..profile }
    }
}

/// Claims a profile that is nobody's for the participant, and records the
/// activity. A blank profile, as `PlayerProfile::default` makes it, so
/// becomes the fresh profile of the participant.
pub fn initialize_player(ctx: &mut InitializePlayer, now: i64)
    ensures
        final(ctx).player_profile == initialized_profile(
            old(ctx).player_profile,
            old(ctx).player,
            now,
        ),
        final(ctx).player_profile == profile_step(
            old(ctx).player_profile,
            ProfileAction::Initialize { player: old(ctx).player, now },
        ),
        final(ctx).player == old(ctx).player,
        old(ctx).player_profile.wf() ==> final(ctx).player_profile.wf(),
{
    if ctx.player_profile.player.is_default() {
        ctx.player_profile.player = ctx.player;
        ctx.player_profile.is_banned = false;
        ctx.player_profile.ban_expires_at = 0;
    }
    ctx.player_profile.last_active = now;
}

/// Why `ban_player` rejects its input, if it does.
pub open spec fn ban_player_check(ctx: BanPlayer, ban_duration: i64, now: i64) -> Option<ErrorCode> {
    if ctx.authorizer != ctx.authority {
        Some(ErrorCode::Unauthorized)
    } else if ban_duration != 0 && !(i64::MIN <= now + ban_duration <= i64::MAX) {
        Some(ErrorCode::Overflow)
    } else {
        None
    }
}

/// The profile after an accepted `ban_player`: a duration of zero lifts the
/// ban, any other duration bans until `now + ban_duration`.
pub open spec fn banned_profile(profile: PlayerProfile, ban_duration: i64, now: i64) -> PlayerProfile {
    if ban_duration == 0 {
        PlayerProfile { is_banned: false, ban_expires_at: 0, ..profile }
    } else {
        PlayerProfile { is_banned: true, ban_expires_at: (now + ban_duration) as i64, ..profile }
    }
}

/// Bans the participant for `ban_duration` seconds from `now`, or lifts the
/// ban when the duration is zero. Only the platform authority may do so.
pub fn ban_player(ctx: &mut BanPlayer, ban_duration: i64, now: i64) -> (result: Result<
    PlayerBanned,
    ErrorCode,
>)
    ensures
        final(ctx).authorizer == old(ctx).authorizer,
        final(ctx).authority == old(ctx).authority,
        old(ctx).player_profile.wf() ==> final(ctx).player_profile.wf(),
        final(ctx).player_profile == profile_step(
            old(ctx).player_profile,
            ProfileAction::Ban {
                authorizer: old(ctx).authorizer,
                authority: old(ctx).authority,
                ban_duration,
                now,
            },
        ),
        match result {
            Ok(event) => {
                &&& ban_player_check(*old(ctx), ban_duration, now) is None
                &&& final(ctx).player_profile == banned_profile(
                    old(ctx).player_profile,
                    ban_duration,
                    now,
                )
                &&& event.player == old(ctx).player_profile.player
                &&& event.ban_expires_at == final(ctx).player_profile.ban_expires_at
            },
            Err(e) => {
                &&& ban_player_check(*old(ctx), ban_duration, now) == Some(e)
                &&& final(ctx).player_profile == old(ctx).player_profile
            },
        },
{
    if ctx.authorizer != ctx.authority {
        return Err(ErrorCode::Unauthorized);
    }
    if ban_duration == 0 {
        ctx.player_profile.is_banned = false;
        ctx.player_profile.ban_expires_at = 0;
    } else {
        match now.checked_add(ban_duration) {
            Some(expires) => {
                ctx.player_profile.is_banned = true;
                ctx.player_profile.ban_expires_at = expires;
            },
            None => {
                return Err(ErrorCode::Overflow);
            },
        }
    }
    Ok(PlayerBanned {
        player: ctx.player_profile.player,
        ban_expires_at: ctx.player_profile.ban_expires_at,
    })
}

} // verus!
