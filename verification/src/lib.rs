//! Settlement of two-party skill wagers: a verified state machine that turns
//! the participants' votes into one authorized payout, a progression engine
//! for experience and rank, and a ledger of one-time achievements.

pub mod achievements;
pub mod career;
pub mod error;
pub mod identity;
pub mod profile;
pub mod progression;
pub mod rating;
pub mod settlement;
pub mod trace;
pub mod wager;

pub use achievements::{
    claim_achievement, clear_seasonal, AchievementKind, AchievementRecord,
    CLAIM_COOLDOWN_SECONDS, SEASONAL_ACHIEVEMENTS,
};
pub use error::ErrorCode;
pub use identity::Identity;
pub use profile::{
    ban_player, initialize_player, BanPlayer, InitializePlayer, PlayerBanned, PlayerProfile, Rank,
};
pub use progression::{
    apply_match_result, award_for, day_index, outcome_for, performance_xp, season_reset,
    week_index,
    MatchOutcome, PerformanceMetrics, SeasonReset, XpAward, MAX_XP_PER_MATCH,
};
pub use rating::{
    accept_rating, activity_factor, compression_applies, rating_gap, Rating, BASELINE_MU,
    MAX_MU_STEP, MAX_SIGMA, MIN_SIGMA, RATING_SCALE,
};
pub use settlement::{
    close_wager, create_wager, join_wager, resolve_wager, retract_vote, submit_vote, CloseWager,
    CreateWager, JoinWager, ResolveWager, RetractVote, SubmitVote,
};
pub use wager::{
    VoteRetracted, VoteSubmitted, WagerAccount, WagerClosed, WagerCreated, WagerJoined,
    WagerResolved, WagerStatus, MAX_LICHESS_GAME_ID_LENGTH, MIN_CLOSE_AGE_SECONDS,
    RETRACT_GRACE_SECONDS,
};
