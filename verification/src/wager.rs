//! The settlement record of one wager, its status, and what the operations
//! on it announce.

use crate::identity::Identity;
use vstd::prelude::*;

verus! {

/// Longest game identifier accepted, in bytes.
pub const MAX_LICHESS_GAME_ID_LENGTH: usize = 20;

/// Seconds after agreement during which a vote may still be retracted.
pub const RETRACT_GRACE_SECONDS: i64 = 300;

/// Seconds a settlement must have existed before it may be force-closed.
pub const MIN_CLOSE_AGE_SECONDS: i64 = 3600;

/// Where a settlement stands. `Resolved` and `Voided` are final.
#[derive(Clone, Copy, Debug, PartialEq, Eq, Structural)]
pub enum WagerStatus {
    /// The first participant has staked.
    Created,
    /// Both participants have staked; nobody has voted.
    Joined,
    /// Votes are being collected.
    Voting,
    /// The votes agreed; they may be retracted until the deadline.
    Retractable,
    /// The votes disagree and an arbiter has to decide.
    Disputed,
    /// The pot was paid to the winner.
    Resolved,
    /// The settlement was force-closed and the stakes were refunded.
    Voided,
}

impl WagerStatus {
    /// True of the two final statuses.
    pub open spec fn is_terminal(self) -> bool {
        self == WagerStatus::Resolved || self == WagerStatus::Voided
    }

    /// Computes `is_terminal`.
    pub fn is_final(&self) -> (terminal: bool)
        ensures
            terminal == self.is_terminal(),
    {
        match self {
            WagerStatus::Resolved | WagerStatus::Voided => true,
            _ => false,
        }
    }
}

/// The length of a game identifier as it is stored: its bytes in UTF-8.
pub open spec fn game_id_len(game_id: Seq<char>) -> nat {
    vstd::utf8::encode_utf8(game_id).len()
}

/// The record that governs one wager from the first stake to the payout.
#[derive(Debug, PartialEq, Eq)]
pub struct WagerAccount {
    pub player_a: Identity,
    /// All zero until the second participant has joined.
    pub player_b: Identity,
    pub match_id: u64,
    /// What each side stakes.
    pub stake_lamports: u64,
    pub lichess_game_id: String,
    pub status: WagerStatus,
    /// Whether disagreeing votes need an arbiter.
    pub requires_moderator: bool,
    pub vote_player_a: Option<Identity>,
    pub vote_player_b: Option<Identity>,
    pub winner: Option<Identity>,
    /// When the first vote came in.
    pub vote_timestamp: i64,
    /// Until when agreeing votes may be retracted.
    pub retract_deadline: i64,
    pub created_at: i64,
    /// When the settlement reached a final status.
    pub resolved_at: i64,
}

impl Clone for WagerAccount {
    fn clone(&self) -> (copy: WagerAccount)
        ensures
            copy == *self,
    {
        WagerAccount {
            player_a: self.player_a,
            player_b: self.player_b,
            match_id: self.match_id,
            stake_lamports: self.stake_lamports,
            lichess_game_id: self.lichess_game_id.clone(),
            status: self.status,
            requires_moderator: self.requires_moderator,
            vote_player_a: self.vote_player_a,
            vote_player_b: self.vote_player_b,
            winner: self.winner,
            vote_timestamp: self.vote_timestamp,
            retract_deadline: self.retract_deadline,
            created_at: self.created_at,
            resolved_at: self.resolved_at,
        }
    }
}

impl WagerAccount {
    /// True of the two participants.
    pub open spec fn is_participant(&self, who: Identity) -> bool {
        who == self.player_a || who == self.player_b
    }

    /// The recorded vote of `player`: the first participant's if `player` is
    /// the first participant, else the second participant's.
    pub open spec fn vote_of(&self, player: Identity) -> Option<Identity> {
        if player == self.player_a {
            self.vote_player_a
        } else {
            self.vote_player_b
        }
    }

    /// This record with the vote of `player` replaced.
    pub open spec fn with_vote(self, player: Identity, vote: Option<Identity>) -> WagerAccount {
        if player == self.player_a {
            WagerAccount { vote_player_a: vote, ..self }
        } else {
            WagerAccount { vote_player_b: vote, ..self }
        }
    }

    /// Both votes are recorded and name the same winner.
    pub open spec fn votes_agree(&self) -> bool {
        self.vote_player_a is Some && self.vote_player_a == self.vote_player_b
    }

    /// Both votes are recorded and name different winners.
    pub open spec fn votes_differ(&self) -> bool {
        self.vote_player_a is Some && self.vote_player_b is Some && self.vote_player_a
            != self.vote_player_b
    }

    /// What custody holds for this settlement: one stake until the second
    /// participant joins, both stakes until a final status, nothing after.
    pub open spec fn held(&self) -> int {
        match self.status {
            WagerStatus::Created => self.stake_lamports as int,
            WagerStatus::Resolved | WagerStatus::Voided => 0,
            _ => 2 * self.stake_lamports,
        }
    }

    /// What holds of every settlement that `create_wager` made and the
    /// operations of this crate changed.
    pub open spec fn wf(&self) -> bool {
        &&& self.stake_lamports > 0
        &&& self.match_id > 0
        &&& game_id_len(self.lichess_game_id@) <= MAX_LICHESS_GAME_ID_LENGTH
        &&& self.vote_player_a matches Some(v) ==> self.is_participant(v)
        &&& self.vote_player_b matches Some(v) ==> self.is_participant(v)
        &&& self.status != WagerStatus::Created && self.status != WagerStatus::Voided ==> {
            &&& self.player_a != self.player_b
            &&& 2 * self.stake_lamports <= u64::MAX
        }
        &&& match self.status {
            WagerStatus::Created | WagerStatus::Joined => {
                &&& self.vote_player_a is None
                &&& self.vote_player_b is None
                &&& self.winner is None
            },
            WagerStatus::Voting => {
                &&& !self.votes_agree()
                &&& self.votes_differ() ==> !self.requires_moderator
                &&& self.winner is None
            },
            WagerStatus::Retractable => {
                &&& self.vote_player_a is Some || self.vote_player_b is Some
                &&& !self.votes_differ()
                &&& self.winner is None
            },
            WagerStatus::Disputed => {
                &&& self.votes_differ()
                &&& self.requires_moderator
                &&& self.winner is None
            },
            WagerStatus::Resolved => {
                self.winner matches Some(w) && self.is_participant(w)
            },
            WagerStatus::Voided => self.winner is None,
        }
    }

    /// Tells whether `who` is one of the two participants.
    pub fn has_participant(&self, who: &Identity) -> (yes: bool)
        ensures
            yes == self.is_participant(*who),
    {
        *who == self.player_a || *who == self.player_b
    }

    /// Tells whether a recorded vote, if there is one, names a participant.
    fn vote_is_valid(&self, vote: &Option<Identity>) -> (valid: bool)
        ensures
            valid == (*vote matches Some(v) ==> self.is_participant(v)),
    {
        match vote {
            Some(v) => self.has_participant(v),
            None => true,
        }
    }

    /// Tells whether the record is one that the operations of this crate can
    /// have left behind: a host that reads records from storage can test them
    /// with this.
    pub fn is_well_formed(&self) -> (ok: bool)
        ensures
            ok == self.wf(),
    {
        if self.stake_lamports == 0 || self.match_id == 0 {
            return false;
        }
        if self.lichess_game_id.as_str().as_bytes().len() > MAX_LICHESS_GAME_ID_LENGTH {
            return false;
        }
        if !self.vote_is_valid(&self.vote_player_a) || !self.vote_is_valid(&self.vote_player_b) {
            return false;
        }
        let both_staked = self.status != WagerStatus::Created && self.status
            != WagerStatus::Voided;
        if both_staked && (self.player_a == self.player_b || self.stake_lamports > u64::MAX / 2) {
            return false;
        }
        let (agree, differ) = match (&self.vote_player_a, &self.vote_player_b) {
            (Some(a), Some(b)) => {
                let same = *a == *b;
                (same, !same)
            },
            _ => (false, false),
        };
        match self.status {
            WagerStatus::Created | WagerStatus::Joined => self.vote_player_a.is_none()
                && self.vote_player_b.is_none() && self.winner.is_none(),
            WagerStatus::Voting => !agree && (!differ || !self.requires_moderator)
                && self.winner.is_none(),
            WagerStatus::Retractable => (self.vote_player_a.is_some()
                || self.vote_player_b.is_some()) && !differ && self.winner.is_none(),
            WagerStatus::Disputed => differ && self.requires_moderator && self.winner.is_none(),
            WagerStatus::Resolved => match &self.winner {
                Some(w) => self.has_participant(w),
                None => false,
            },
            WagerStatus::Voided => self.winner.is_none(),
        }
    }
}

/// Announces a new settlement; the ledger escrows `stake_lamports` from
/// `player_a` under `wager_id`.
#[derive(Clone, Copy, Debug, PartialEq, Eq)]
pub struct WagerCreated {
    pub wager_id: Identity,
    pub player_a: Identity,
    pub match_id: u64,
    pub stake_lamports: u64,
}

/// Announces the second participant; the ledger escrows `stake_lamports`
/// from `player_b` under `wager_id`.
#[derive(Clone, Copy, Debug, PartialEq, Eq)]
pub struct WagerJoined {
    pub wager_id: Identity,
    pub player_b: Identity,
    pub stake_lamports: u64,
}

/// Announces a vote.
#[derive(Clone, Copy, Debug, PartialEq, Eq)]
pub struct VoteSubmitted {
    pub wager_id: Identity,
    pub player: Identity,
    pub voted_winner: Identity,
}

/// Announces that a vote was taken back.
#[derive(Clone, Copy, Debug, PartialEq, Eq)]
pub struct VoteRetracted {
    pub wager_id: Identity,
    pub player: Identity,
}

/// Announces the winner; the ledger pays `total_payout` to `winner`.
#[derive(Clone, Copy, Debug, PartialEq, Eq)]
pub struct WagerResolved {
    pub wager_id: Identity,
    pub winner: Identity,
    pub total_payout: u64,
}

/// Announces a force-close; the ledger refunds each side the amount named.
#[derive(Clone, Copy, Debug, PartialEq, Eq)]
pub struct WagerClosed {
    pub wager_id: Identity,
    pub refund_player_a: u64,
    pub refund_player_b: u64,
}

} // verus!
