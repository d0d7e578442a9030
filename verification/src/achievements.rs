//! The achievement ledger: which one-time achievements a participant has
//! claimed, and the rule that lets each be claimed at most once.
//!
//! A claim sets the achievement's bit in the profile before anything is
//! minted. Whoever mints does so from the returned record, so neither a
//! failed nor a repeated mint can credit an achievement twice.

use crate::career::{profile_step, ProfileAction};
use crate::error::ErrorCode;
use crate::identity::Identity;
use crate::profile::{PlayerProfile, Rank};
use crate::progression::rank_level;
use vstd::prelude::*;

verus! {

/// Seconds that must pass between two claims of one participant.
pub const CLAIM_COOLDOWN_SECONDS: i64 = 60;

/// The achievements that a season reset opens again, as a mask.
pub const SEASONAL_ACHIEVEMENTS: u64 = 0x80;

/// Thresholds of the achievements.
pub const VETERAN_WINS: u32 = 10;

pub const CENTURION_MATCHES: u32 = 100;

pub const HOT_STREAK_WINS: u32 = 5;

pub const HOT_STREAK_MIN_MATCHES: u32 = 10;

pub const HIGH_ROLLER_LAMPORTS: u64 = 10_000_000_000;

pub const HIGH_ROLLER_MIN_MATCHES: u32 = 5;

pub const REGULAR_LOGIN_DAYS: u32 = 7;

pub const REGULAR_MIN_MATCHES: u32 = 7;

/// The one-time achievements.
#[derive(Clone, Copy, Debug, PartialEq, Eq, Structural)]
pub enum AchievementKind {
    /// The first win.
    FirstWin,
    /// Ten wins.
    Veteran,
    /// A hundred matches.
    Centurion,
    /// Five wins in a row, in at least ten matches.
    HotStreak,
    /// Ten billion lamports staked in all, in at least five matches.
    HighRoller,
    /// The rank `Gold` or a higher one.
    Golden,
    /// Seven days of activity in a row, with at least seven matches.
    Regular,
    /// The rank `Master`, once per season.
    SeasonChampion,
}

/// What a successful claim leaves for the mint: who earned what, when, and
/// the profile that met the thresholds.
#[derive(Clone, Copy, Debug, PartialEq, Eq)]
pub struct AchievementRecord {
    pub participant: Identity,
    pub kind: AchievementKind,
    pub claimed_at: i64,
    pub snapshot: PlayerProfile,
}

/// The value of the bit that stands for an achievement in a profile's mask.
/// The table is fixed: a kind keeps its bit whatever kinds are added later.
pub open spec fn bit_value(kind: AchievementKind) -> u64 {
    match kind {
        AchievementKind::FirstWin => 0x01,
        AchievementKind::Veteran => 0x02,
        AchievementKind::Centurion => 0x04,
        AchievementKind::HotStreak => 0x08,
        AchievementKind::HighRoller => 0x10,
        AchievementKind::Golden => 0x20,
        AchievementKind::Regular => 0x40,
        AchievementKind::SeasonChampion => 0x80,
    }
}

/// True when the mask records the achievement as claimed: the binary digit
/// of the mask at the achievement's bit is one.
pub open spec fn is_claimed(mask: u64, kind: AchievementKind) -> bool {
    (mask / bit_value(kind)) % 2 == 1
}

/// The mask with the achievement recorded as claimed.
pub open spec fn with_claim(mask: u64, kind: AchievementKind) -> u64 {
    if is_claimed(mask, kind) {
        mask
    } else {
        (mask + bit_value(kind)) as u64
    }
}

/// The mask with the seasonal achievements open again.
pub open spec fn without_seasonal(mask: u64) -> u64 {
    if is_claimed(mask, AchievementKind::SeasonChampion) {
        (mask - SEASONAL_ACHIEVEMENTS) as u64
    } else {
        mask
    }
}

/// True of the achievements that a season reset opens again.
pub open spec fn is_seasonal(kind: AchievementKind) -> bool {
    kind == AchievementKind::SeasonChampion
}

/// True when the profile meets the thresholds of the achievement.
pub open spec fn is_eligible(profile: PlayerProfile, kind: AchievementKind) -> bool {
    match kind {
        AchievementKind::FirstWin => profile.wins >= 1,
        AchievementKind::Veteran => profile.wins >= VETERAN_WINS,
        AchievementKind::Centurion => profile.matches_played >= CENTURION_MATCHES,
        AchievementKind::HotStreak => profile.max_streak >= HOT_STREAK_WINS
            && profile.matches_played >= HOT_STREAK_MIN_MATCHES,
        AchievementKind::HighRoller => profile.total_wagered >= HIGH_ROLLER_LAMPORTS
            && profile.matches_played >= HIGH_ROLLER_MIN_MATCHES,
        AchievementKind::Golden => rank_level(profile.rank) >= rank_level(Rank::Gold),
        AchievementKind::Regular => profile.login_streak >= REGULAR_LOGIN_DAYS
            && profile.matches_played >= REGULAR_MIN_MATCHES,
        AchievementKind::SeasonChampion => profile.rank == Rank::Master,
    }
}

/// True when the last claim of the profile is less than the cooldown ago. A
/// profile that has never claimed has no cooldown.
pub open spec fn in_cooldown(profile: PlayerProfile, now: i64) -> bool {
    profile.achievements_earned > 0 && now - profile.last_achievement_claim_time
        < CLAIM_COOLDOWN_SECONDS
}

/// Why `claim_achievement` rejects its input, if it does.
pub open spec fn claim_achievement_check(
    profile: PlayerProfile,
    kind: AchievementKind,
    now: i64,
) -> Option<ErrorCode> {
    if is_claimed(profile.achievements, kind) {
        Some(ErrorCode::AlreadyClaimed)
    } else if in_cooldown(profile, now) {
        Some(ErrorCode::ClaimCooldown)
    } else if !is_eligible(profile, kind) {
        Some(ErrorCode::NotEligible)
    } else if profile.achievements_earned + 1 > u32::MAX {
        Some(ErrorCode::Overflow)
    } else {
        None
    }
}

/// The profile after an accepted claim.
pub open spec fn claimed_profile(profile: PlayerProfile, kind: AchievementKind, now: i64) -> PlayerProfile {
    PlayerProfile {
        achievements: with_claim(profile.achievements, kind),
        achievements_earned: (profile.achievements_earned + 1) as u32,
        last_achievement_claim_time: now,
        ..profile
    }
}

/// True of the values of single bits that stand for achievements.
spec fn is_achievement_bit(bit: u64) -> bool {
    bit == 0x01 || bit == 0x02 || bit == 0x04 || bit == 0x08 || bit == 0x10 || bit == 0x20 || bit
        == 0x40 || bit == 0x80
}

/// A bit is set exactly when the binary digit at its place is one.
proof fn lemma_bit_is_digit(mask: u64, bit: u64)
    requires
        is_achievement_bit(bit),
    ensures
        mask & bit != 0 <==> (mask / bit) % 2 == 1,
{
    if bit == 0x01 {
        assert(mask & 0x01 != 0 <==> (mask / 0x01) % 2 == 1) by (bit_vector);
    } else if bit == 0x02 {
        assert(mask & 0x02 != 0 <==> (mask / 0x02) % 2 == 1) by (bit_vector);
    } else if bit == 0x04 {
        assert(mask & 0x04 != 0 <==> (mask / 0x04) % 2 == 1) by (bit_vector);
    } else if bit == 0x08 {
        assert(mask & 0x08 != 0 <==> (mask / 0x08) % 2 == 1) by (bit_vector);
    } else if bit == 0x10 {
        assert(mask & 0x10 != 0 <==> (mask / 0x10) % 2 == 1) by (bit_vector);
    } else if bit == 0x20 {
        assert(mask & 0x20 != 0 <==> (mask / 0x20) % 2 == 1) by (bit_vector);
    } else if bit == 0x40 {
        assert(mask & 0x40 != 0 <==> (mask / 0x40) % 2 == 1) by (bit_vector);
    } else {
        assert(mask & 0x80 != 0 <==> (mask / 0x80) % 2 == 1) by (bit_vector);
    }
}

/// Setting a bit that is clear adds its value, sets that bit and changes no
/// other.
proof fn lemma_set_clear_bit(mask: u64, bit: u64, probe: u64)
    by (bit_vector)
    requires
        mask & bit == 0,
        is_achievement_bit(bit),
        is_achievement_bit(probe),
    ensures
        mask | bit == mask + bit,
        (mask | bit) & probe != 0 <==> probe == bit || mask & probe != 0,
{
}

/// Clearing a bit leaves the mask if the bit is clear and takes its value
/// off if it is set; it clears that bit and changes no other.
proof fn lemma_clear_bit(mask: u64, bit: u64, probe: u64)
    by (bit_vector)
    requires
        bit == 0x80,
        is_achievement_bit(probe),
    ensures
        mask & bit == 0 ==> mask & !bit == mask,
        mask & bit != 0 ==> mask & !bit == mask - bit,
        (mask & !bit) & probe != 0 <==> probe != bit && mask & probe != 0,
{
}

/// Recording a claim marks that achievement and no other.
pub proof fn lemma_claim_marks_one(mask: u64, claimed: AchievementKind, probe: AchievementKind)
    ensures
        is_claimed(with_claim(mask, claimed), probe) <==> probe == claimed || is_claimed(
            mask,
            probe,
        ),
{
    lemma_bit_is_digit(mask, bit_value(claimed));
    lemma_bit_is_digit(mask, bit_value(probe));
    if !is_claimed(mask, claimed) {
        lemma_set_clear_bit(mask, bit_value(claimed), bit_value(probe));
        lemma_bit_is_digit(mask | bit_value(claimed), bit_value(probe));
    }
}

/// Opening the seasonal achievements unmarks those and no other.
pub proof fn lemma_reset_unmarks_seasonal(mask: u64, probe: AchievementKind)
    ensures
        is_claimed(without_seasonal(mask), probe) <==> !is_seasonal(probe) && is_claimed(
            mask,
            probe,
        ),
{
    lemma_bit_is_digit(mask, SEASONAL_ACHIEVEMENTS);
    lemma_bit_is_digit(mask, bit_value(probe));
    lemma_clear_bit(mask, SEASONAL_ACHIEVEMENTS, bit_value(probe));
    lemma_bit_is_digit(mask & !SEASONAL_ACHIEVEMENTS, bit_value(probe));
}

/// The seasonal achievements taken out of a mask.
pub fn clear_seasonal(mask: u64) -> (cleared: u64)
    ensures
        cleared == without_seasonal(mask),
{
    proof {
        lemma_bit_is_digit(mask, SEASONAL_ACHIEVEMENTS);
        lemma_clear_bit(mask, SEASONAL_ACHIEVEMENTS, SEASONAL_ACHIEVEMENTS);
    }
    mask & !SEASONAL_ACHIEVEMENTS
}

impl AchievementKind {
    /// The achievement that a bit of the mask stands for, if it stands for
    /// one.
    pub fn from_bit(bit: u64) -> (kind: Option<AchievementKind>)
        ensures
            match kind {
                Some(kind) => bit_value(kind) == bit,
                None => forall|any: AchievementKind| bit_value(any) != bit,
            },
    {
        match bit {
            0x01 => Some(AchievementKind::FirstWin),
            0x02 => Some(AchievementKind::Veteran),
            0x04 => Some(AchievementKind::Centurion),
            0x08 => Some(AchievementKind::HotStreak),
            0x10 => Some(AchievementKind::HighRoller),
            0x20 => Some(AchievementKind::Golden),
            0x40 => Some(AchievementKind::Regular),
            0x80 => Some(AchievementKind::SeasonChampion),
            _ => None,
        }
    }

    /// The value of the bit that stands for this achievement.
    pub fn bit(&self) -> (value: u64)
        ensures
            value == bit_value(*self),
    {
        match self {
            AchievementKind::FirstWin => 0x01,
            AchievementKind::Veteran => 0x02,
            AchievementKind::Centurion => 0x04,
            AchievementKind::HotStreak => 0x08,
            AchievementKind::HighRoller => 0x10,
            AchievementKind::Golden => 0x20,
            AchievementKind::Regular => 0x40,
            AchievementKind::SeasonChampion => 0x80,
        }
    }
}

impl PlayerProfile {
    /// Tells whether the achievement has been claimed.
    pub fn has_achievement(&self, kind: AchievementKind) -> (claimed: bool)
        ensures
            claimed == is_claimed(self.achievements, kind),
    {
        let bit = kind.bit();
        proof {
            lemma_bit_is_digit(self.achievements, bit);
        }
        self.achievements & bit != 0
    }

    /// Tells whether the profile meets the thresholds of the achievement.
    pub fn meets_thresholds(&self, kind: AchievementKind) -> (eligible: bool)
        ensures
            eligible == is_eligible(*self, kind),
    {
        match kind {
            AchievementKind::FirstWin => self.wins >= 1,
            AchievementKind::Veteran => self.wins >= VETERAN_WINS,
            AchievementKind::Centurion => self.matches_played >= CENTURION_MATCHES,
            AchievementKind::HotStreak => self.max_streak >= HOT_STREAK_WINS
                && self.matches_played >= HOT_STREAK_MIN_MATCHES,
            AchievementKind::HighRoller => self.total_wagered >= HIGH_ROLLER_LAMPORTS
                && self.matches_played >= HIGH_ROLLER_MIN_MATCHES,
            AchievementKind::Golden => self.rank.level() >= Rank::Gold.level(),
            AchievementKind::Regular => self.login_streak >= REGULAR_LOGIN_DAYS
                && self.matches_played >= REGULAR_MIN_MATCHES,
            AchievementKind::SeasonChampion => self.rank == Rank::Master,
        }
    }

    /// Tells whether the last claim is less than the cooldown ago.
    pub fn is_in_cooldown(&self, now: i64) -> (cooling: bool)
        ensures
            cooling == in_cooldown(*self, now),
    {
        if self.achievements_earned == 0 {
            return false;
        }
        match now.checked_sub(self.last_achievement_claim_time) {
            Some(elapsed) => elapsed < CLAIM_COOLDOWN_SECONDS,
            None => now < self.last_achievement_claim_time,
        }
    }
}

/// Claims an achievement for the profile's participant.
///
/// The claim is refused when the achievement is already claimed, when the
/// last claim is less than the cooldown ago, or when the profile does not
/// meet the thresholds, in this order. On success the bit is set and the
/// number of achievements earned grows by one; the returned record is what
/// the mint works from.
pub fn claim_achievement(profile: &mut PlayerProfile, kind: AchievementKind, now: i64) -> (result:
    Result<AchievementRecord, ErrorCode>)
    ensures
        is_claimed(old(profile).achievements, kind) ==> result == Err::<
            AchievementRecord,
            ErrorCode,
        >(ErrorCode::AlreadyClaimed),
        *final(profile) == profile_step(*old(profile), ProfileAction::Claim { kind, now }),
        old(profile).wf() ==> final(profile).wf(),
        match result {
            Ok(record) => {
                &&& claim_achievement_check(*old(profile), kind, now) is None
                &&& *final(profile) == claimed_profile(*old(profile), kind, now)
                &&& is_claimed(final(profile).achievements, kind)
                &&& record == (AchievementRecord {
                    participant: old(profile).player,
                    kind,
                    claimed_at: now,
                    snapshot: *old(profile),
                })
            },
            Err(e) => {
                &&& claim_achievement_check(*old(profile), kind, now) == Some(e)
                &&& *final(profile) == *old(profile)
            },
        },
{
    if profile.has_achievement(kind) {
        return Err(ErrorCode::AlreadyClaimed);
    }
    if profile.is_in_cooldown(now) {
        return Err(ErrorCode::ClaimCooldown);
    }
    if !profile.meets_thresholds(kind) {
        return Err(ErrorCode::NotEligible);
    }
    let earned = match profile.achievements_earned.checked_add(1) {
        Some(n) => n,
        None => {
            return Err(ErrorCode::Overflow);
        },
    };
    let record = AchievementRecord {
        participant: profile.player,
        kind,
        claimed_at: now,
        snapshot: *profile,
    };
    let bit = kind.bit();
    proof {
        lemma_bit_is_digit(profile.achievements, bit);
        lemma_set_clear_bit(profile.achievements, bit, bit);
        lemma_claim_marks_one(profile.achievements, kind, kind);
    }
    profile.achievements = profile.achievements | bit;
    profile.achievements_earned = earned;
    profile.last_achievement_claim_time = now;
    Ok(record)
}

} // verus!
