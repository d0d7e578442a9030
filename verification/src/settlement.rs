//! The settlement state machine: the operations that take a wager from the
//! first stake to a payout or a refund, each with the rule that decides
//! whether it is accepted and the record it leaves behind.
//!
//! The operations move no funds and read no clock. They take the current time
//! as an argument, and what they return tells the ledger which amount to
//! escrow, pay or refund.

use crate::error::ErrorCode;
use crate::identity::Identity;
use crate::profile::PlayerProfile;
use crate::trace::{step, Action};
use crate::wager::{
    game_id_len, VoteRetracted, VoteSubmitted, WagerAccount, WagerClosed, WagerCreated,
    WagerJoined, WagerResolved, WagerStatus, MAX_LICHESS_GAME_ID_LENGTH, MIN_CLOSE_AGE_SECONDS,
    RETRACT_GRACE_SECONDS,
};
use vstd::prelude::*;

verus! {

/// What `create_wager` works on: the blank record to fill and its key, and
/// the first participant with their profile.
pub struct CreateWager {
    pub wager_key: Identity,
    pub wager: WagerAccount,
    pub player_a_profile: PlayerProfile,
    pub player_a: Identity,
}

/// Why `create_wager` rejects its input, if it does.
pub open spec fn create_wager_check(
    profile: PlayerProfile,
    match_id: u64,
    stake_lamports: u64,
    game_id: Seq<char>,
    now: i64,
) -> Option<ErrorCode> {
    if stake_lamports == 0 {
        Some(ErrorCode::InvalidAmount)
    } else if match_id == 0 {
        Some(ErrorCode::InvalidMatchId)
    } else if game_id_len(game_id) > MAX_LICHESS_GAME_ID_LENGTH {
        Some(ErrorCode::LichessGameIdTooLong)
    } else if profile.banned_at(now) {
        Some(ErrorCode::PlayerBanned)
    } else {
        None
    }
}

/// True when `wager` is the record of a settlement that `player_a` has just
/// opened with the given terms: no second participant, no votes, no winner.
pub open spec fn is_new_wager(
    wager: WagerAccount,
    player_a: Identity,
    match_id: u64,
    stake_lamports: u64,
    game_id: String,
    requires_moderator: bool,
    now: i64,
) -> bool {
    &&& wager.player_b.is_nobody()
    &&& wager == (WagerAccount {
        player_a,
        player_b: wager.player_b,
        match_id,
        stake_lamports,
        lichess_game_id: game_id,
        status: WagerStatus::Created,
        requires_moderator,
        vote_player_a: None,
        vote_player_b: None,
        winner: None,
        vote_timestamp: 0,
        retract_deadline: 0,
        created_at: now,
        resolved_at: 0,
    })
}

/// Opens a settlement: the first participant stakes `stake_lamports` on
/// match `match_id`.
///
/// The previous content of `ctx.wager` is discarded. On success the ledger
/// has to escrow the stake that the returned event names.
pub fn create_wager(
    ctx: &mut CreateWager,
    match_id: u64,
    stake_lamports: u64,
    lichess_game_id: String,
    requires_moderator: bool,
    now: i64,
) -> (result: Result<WagerCreated, ErrorCode>)
    ensures
        final(ctx).wager_key == old(ctx).wager_key,
        final(ctx).player_a_profile == old(ctx).player_a_profile,
        final(ctx).player_a == old(ctx).player_a,
        match result {
            Ok(event) => {
                &&& create_wager_check(
                    old(ctx).player_a_profile,
                    match_id,
                    stake_lamports,
                    lichess_game_id@,
                    now,
                ) is None
                &&& is_new_wager(
                    final(ctx).wager,
                    old(ctx).player_a,
                    match_id,
                    stake_lamports,
                    lichess_game_id,
                    requires_moderator,
                    now,
                )
                &&& final(ctx).wager.wf()
                &&& final(ctx).wager.held() == stake_lamports
                &&& event == (WagerCreated {
                    wager_id: old(ctx).wager_key,
                    player_a: old(ctx).player_a,
                    match_id,
                    stake_lamports,
                })
            },
            Err(e) => {
                &&& create_wager_check(
                    old(ctx).player_a_profile,
                    match_id,
                    stake_lamports,
                    lichess_game_id@,
                    now,
                ) == Some(e)
                &&& final(ctx).wager == old(ctx).wager
            },
        },
{
    if stake_lamports == 0 {
        return Err(ErrorCode::InvalidAmount);
    }
    if match_id == 0 {
        return Err(ErrorCode::InvalidMatchId);
    }
    if lichess_game_id.as_str().as_bytes().len() > MAX_LICHESS_GAME_ID_LENGTH {
        return Err(ErrorCode::LichessGameIdTooLong);
    }
    if ctx.player_a_profile.is_banned_at(now) {
        return Err(ErrorCode::PlayerBanned);
    }
    ctx.wager.player_a = ctx.player_a;
    ctx.wager.player_b = Identity::default();
    ctx.wager.match_id = match_id;
    ctx.wager.stake_lamports = stake_lamports;
    ctx.wager.lichess_game_id = lichess_game_id;
    ctx.wager.status = WagerStatus::Created;
    ctx.wager.requires_moderator = requires_moderator;
    ctx.wager.vote_player_a = None;
    ctx.wager.vote_player_b = None;
    ctx.wager.winner = None;
    ctx.wager.vote_timestamp = 0;
    ctx.wager.retract_deadline = 0;
    ctx.wager.created_at = now;
    ctx.wager.resolved_at = 0;
    Ok(
        WagerCreated {
            wager_id: ctx.wager_key,
            player_a: ctx.wager.player_a,
            match_id,
            stake_lamports,
        },
    )
}

/// What `join_wager` works on: the settlement and its key, the profile of
/// the first participant, and the second participant with their profile.
pub struct JoinWager {
    pub wager_key: Identity,
    pub wager: WagerAccount,
    pub player_a_profile: PlayerProfile,
    pub player_b_profile: PlayerProfile,
    pub player_b: Identity,
}

/// Why `join_wager` rejects its input, if it does.
pub open spec fn join_wager_check(
    wager: WagerAccount,
    player_a_profile: PlayerProfile,
    player_b_profile: PlayerProfile,
    player_b: Identity,
    stake_lamports: u64,
    now: i64,
) -> Option<ErrorCode> {
    if wager.status != WagerStatus::Created {
        Some(ErrorCode::InvalidStatus)
    } else if stake_lamports != wager.stake_lamports || stake_lamports == 0 {
        Some(ErrorCode::InvalidAmount)
    } else if wager.match_id == 0 {
        Some(ErrorCode::InvalidMatchId)
    } else if player_b_profile.banned_at(now) || player_a_profile.banned_at(now) {
        Some(ErrorCode::PlayerBanned)
    } else if player_b == wager.player_a {
        Some(ErrorCode::InvalidPlayer)
    } else if 2 * stake_lamports > u64::MAX {
        Some(ErrorCode::Overflow)
    } else {
        None
    }
}

/// The record after an accepted `join_wager`.
pub open spec fn joined_wager(wager: WagerAccount, player_b: Identity) -> WagerAccount {
    WagerAccount { player_b, status: WagerStatus::Joined, ..wager }
}

/// The second participant stakes the same amount as the first.
///
/// On success the ledger has to escrow the stake that the returned event
/// names. A stake whose double does not fit the pot is refused.
pub fn join_wager(ctx: &mut JoinWager, stake_lamports: u64, now: i64) -> (result: Result<
    WagerJoined,
    ErrorCode,
>)
    ensures
        final(ctx).wager_key == old(ctx).wager_key,
        final(ctx).player_a_profile == old(ctx).player_a_profile,
        final(ctx).player_b_profile == old(ctx).player_b_profile,
        final(ctx).player_b == old(ctx).player_b,
        old(ctx).wager.wf() ==> final(ctx).wager.wf(),
        final(ctx).wager == step(
            old(ctx).wager,
            Action::Join {
                player_a_profile: old(ctx).player_a_profile,
                player_b_profile: old(ctx).player_b_profile,
                player_b: old(ctx).player_b,
                stake_lamports,
                now,
            },
        ),
        match result {
            Ok(event) => {
                &&& join_wager_check(
                    old(ctx).wager,
                    old(ctx).player_a_profile,
                    old(ctx).player_b_profile,
                    old(ctx).player_b,
                    stake_lamports,
                    now,
                ) is None
                &&& final(ctx).wager == joined_wager(old(ctx).wager, old(ctx).player_b)
                &&& event == (WagerJoined {
                    wager_id: old(ctx).wager_key,
                    player_b: old(ctx).player_b,
                    stake_lamports,
                })
                &&& final(ctx).wager.held() == old(ctx).wager.held() + event.stake_lamports
            },
            Err(e) => {
                &&& join_wager_check(
                    old(ctx).wager,
                    old(ctx).player_a_profile,
                    old(ctx).player_b_profile,
                    old(ctx).player_b,
                    stake_lamports,
                    now,
                ) == Some(e)
                &&& final(ctx).wager == old(ctx).wager
            },
        },
{
    if ctx.wager.status != WagerStatus::Created {
        return Err(ErrorCode::InvalidStatus);
    }
    if stake_lamports != ctx.wager.stake_lamports || stake_lamports == 0 {
        return Err(ErrorCode::InvalidAmount);
    }
    if ctx.wager.match_id == 0 {
        return Err(ErrorCode::InvalidMatchId);
    }
    if ctx.player_b_profile.is_banned_at(now) || ctx.player_a_profile.is_banned_at(now) {
        return Err(ErrorCode::PlayerBanned);
    }
    if ctx.player_b == ctx.wager.player_a {
        return Err(ErrorCode::InvalidPlayer);
    }
    if stake_lamports.checked_mul(2).is_none() {
        return Err(ErrorCode::Overflow);
    }
    ctx.wager.player_b = ctx.player_b;
    ctx.wager.status = WagerStatus::Joined;
    Ok(WagerJoined { wager_id: ctx.wager_key, player_b: ctx.player_b, stake_lamports })
}

/// What `submit_vote` works on: the settlement and its key, and the voter.
pub struct SubmitVote {
    pub wager_key: Identity,
    pub wager: WagerAccount,
    pub player: Identity,
}

/// Why `submit_vote` rejects its input, if it does.
///
/// The last case: the vote completes an agreement, and the retraction
/// deadline that starts with it cannot be represented.
pub open spec fn submit_vote_check(
    wager: WagerAccount,
    player: Identity,
    voted_winner: Identity,
    now: i64,
) -> Option<ErrorCode> {
    if wager.status != WagerStatus::Joined && wager.status != WagerStatus::Voting {
        Some(ErrorCode::InvalidStatus)
    } else if !wager.is_participant(player) {
        Some(ErrorCode::Unauthorized)
    } else if !wager.is_participant(voted_winner) {
        Some(ErrorCode::InvalidVote)
    } else if wager.vote_of(player) is Some {
        Some(ErrorCode::AlreadyVoted)
    } else if wager.with_vote(player, Some(voted_winner)).votes_agree() && now
        + RETRACT_GRACE_SECONDS > i64::MAX {
        Some(ErrorCode::Overflow)
    } else {
        None
    }
}

/// The record after an accepted `submit_vote`.
///
/// The vote is recorded. The first vote after joining opens the voting and
/// stamps its time. Once both votes are in: if they agree, the settlement
/// becomes retractable until `now + RETRACT_GRACE_SECONDS`; if they differ and
/// the settlement asks for an arbiter, it becomes disputed; if they differ
/// and it asks for none, it stays in voting, where an outside resolver can
/// decide.
pub open spec fn voted_wager(
    wager: WagerAccount,
    player: Identity,
    voted_winner: Identity,
    now: i64,
) -> WagerAccount {
    let cast = wager.with_vote(player, Some(voted_winner));
    let open = if wager.status == WagerStatus::Joined {
        WagerAccount { status: WagerStatus::Voting, vote_timestamp: now, ..cast }
    } else {
        cast
    };
    if open.votes_agree() {
        WagerAccount {
            status: WagerStatus::Retractable,
            retract_deadline: (now + RETRACT_GRACE_SECONDS) as i64,
            ..open
        }
    } else if open.votes_differ() && open.requires_moderator {
        WagerAccount { status: WagerStatus::Disputed, ..open }
    } else {
        open
    }
}

/// Records the vote of a participant for one of the two participants.
pub fn submit_vote(ctx: &mut SubmitVote, voted_winner: Identity, now: i64) -> (result: Result<
    VoteSubmitted,
    ErrorCode,
>)
    ensures
        final(ctx).wager_key == old(ctx).wager_key,
        final(ctx).player == old(ctx).player,
        old(ctx).wager.wf() ==> final(ctx).wager.wf(),
        final(ctx).wager.held() == old(ctx).wager.held(),
        final(ctx).wager == step(
            old(ctx).wager,
            Action::Vote { player: old(ctx).player, voted_winner, now },
        ),
        match result {
            Ok(event) => {
                &&& submit_vote_check(old(ctx).wager, old(ctx).player, voted_winner, now) is None
                &&& final(ctx).wager == voted_wager(
                    old(ctx).wager,
                    old(ctx).player,
                    voted_winner,
                    now,
                )
                &&& event == (VoteSubmitted {
                    wager_id: old(ctx).wager_key,
                    player: old(ctx).player,
                    voted_winner,
                })
            },
            Err(e) => {
                &&& submit_vote_check(old(ctx).wager, old(ctx).player, voted_winner, now) == Some(e)
                &&& final(ctx).wager == old(ctx).wager
            },
        },
{
    if ctx.wager.status != WagerStatus::Joined && ctx.wager.status != WagerStatus::Voting {
        return Err(ErrorCode::InvalidStatus);
    }
    if !ctx.wager.has_participant(&ctx.player) {
        return Err(ErrorCode::Unauthorized);
    }
    if !ctx.wager.has_participant(&voted_winner) {
        return Err(ErrorCode::InvalidVote);
    }
    let is_player_a = ctx.player == ctx.wager.player_a;
    let own_vote_is_in = if is_player_a {
        ctx.wager.vote_player_a.is_some()
    } else {
        ctx.wager.vote_player_b.is_some()
    };
    if own_vote_is_in {
        return Err(ErrorCode::AlreadyVoted);
    }
    let other_vote = if is_player_a {
        ctx.wager.vote_player_b
    } else {
        ctx.wager.vote_player_a
    };
    let agreed = vote_names(&other_vote, &voted_winner);
    let mut deadline = ctx.wager.retract_deadline;
    if agreed {
        match now.checked_add(RETRACT_GRACE_SECONDS) {
            Some(t) => {
                deadline = t;
            },
            None => {
                return Err(ErrorCode::Overflow);
            },
        }
    }
    if is_player_a {
        ctx.wager.vote_player_a = Some(voted_winner);
    } else {
        ctx.wager.vote_player_b = Some(voted_winner);
    }
    if ctx.wager.status == WagerStatus::Joined {
        ctx.wager.status = WagerStatus::Voting;
        ctx.wager.vote_timestamp = now;
    }
    if agreed {
        ctx.wager.status = WagerStatus::Retractable;
        ctx.wager.retract_deadline = deadline;
    } else if other_vote.is_some() && ctx.wager.requires_moderator {
        ctx.wager.status = WagerStatus::Disputed;
    }
    Ok(VoteSubmitted { wager_id: ctx.wager_key, player: ctx.player, voted_winner })
}

/// What `retract_vote` works on: the settlement and its key, and the
/// participant who takes their vote back.
pub struct RetractVote {
    pub wager_key: Identity,
    pub wager: WagerAccount,
    pub player: Identity,
}

/// Why `retract_vote` rejects its input, if it does.
pub open spec fn retract_vote_check(wager: WagerAccount, player: Identity, now: i64) -> Option<
    ErrorCode,
> {
    if wager.status != WagerStatus::Retractable {
        Some(ErrorCode::InvalidStatus)
    } else if now >= wager.retract_deadline {
        Some(ErrorCode::RetractExpired)
    } else if !wager.is_participant(player) {
        Some(ErrorCode::Unauthorized)
    } else if wager.vote_of(player) is None {
        Some(ErrorCode::NothingToRetract)
    } else {
        None
    }
}

/// The record after an accepted `retract_vote`: the vote of `player` is
/// cleared, and once both votes are cleared the settlement is back in voting.
pub open spec fn retracted_wager(wager: WagerAccount, player: Identity) -> WagerAccount {
    let cleared = wager.with_vote(player, None);
    if cleared.vote_player_a is None && cleared.vote_player_b is None {
        WagerAccount { status: WagerStatus::Voting, ..cleared }
    } else {
        cleared
    }
}

/// Takes back the vote of a participant, strictly before the retraction
/// deadline.
///
/// The settlement returns to voting only when both votes have been taken
/// back. With one vote left it stays retractable; if the deadline passes in
/// that state, nobody can finalize any more and the settlement can only be
/// force-closed.
pub fn retract_vote(ctx: &mut RetractVote, now: i64) -> (result: Result<VoteRetracted, ErrorCode>)
    ensures
        final(ctx).wager_key == old(ctx).wager_key,
        final(ctx).player == old(ctx).player,
        old(ctx).wager.wf() ==> final(ctx).wager.wf(),
        final(ctx).wager.held() == old(ctx).wager.held(),
        final(ctx).wager == step(old(ctx).wager, Action::Retract { player: old(ctx).player, now }),
        match result {
            Ok(event) => {
                &&& retract_vote_check(old(ctx).wager, old(ctx).player, now) is None
                &&& final(ctx).wager == retracted_wager(old(ctx).wager, old(ctx).player)
                &&& event == (VoteRetracted {
                    wager_id: old(ctx).wager_key,
                    player: old(ctx).player,
                })
            },
            Err(e) => {
                &&& retract_vote_check(old(ctx).wager, old(ctx).player, now) == Some(e)
                &&& final(ctx).wager == old(ctx).wager
            },
        },
{
    if ctx.wager.status != WagerStatus::Retractable {
        return Err(ErrorCode::InvalidStatus);
    }
    if now >= ctx.wager.retract_deadline {
        return Err(ErrorCode::RetractExpired);
    }
    if !ctx.wager.has_participant(&ctx.player) {
        return Err(ErrorCode::Unauthorized);
    }
    if ctx.player == ctx.wager.player_a {
        if ctx.wager.vote_player_a.is_none() {
            return Err(ErrorCode::NothingToRetract);
        }
        ctx.wager.vote_player_a = None;
    } else {
        if ctx.wager.vote_player_b.is_none() {
            return Err(ErrorCode::NothingToRetract);
        }
        ctx.wager.vote_player_b = None;
    }
    if ctx.wager.vote_player_a.is_none() && ctx.wager.vote_player_b.is_none() {
        ctx.wager.status = WagerStatus::Voting;
    }
    Ok(VoteRetracted { wager_id: ctx.wager_key, player: ctx.player })
}

/// What `resolve_wager` works on: the settlement and its key, the account
/// that is to receive the pot, and the caller.
pub struct ResolveWager {
    pub wager_key: Identity,
    pub wager: WagerAccount,
    /// The account that the ledger will pay.
    pub winner: Identity,
    pub authorizer: Identity,
}

/// Why `resolve_wager` rejects its input, if it does.
///
/// After agreement anyone may finalize once the retraction deadline has
/// passed, but only with the winner that both votes name. From `Disputed` and
/// from `Voting` only an outsider decides: somebody who is neither
/// participant. No waiting time is imposed on an outside resolver.
pub open spec fn resolve_wager_check(
    wager: WagerAccount,
    authorizer: Identity,
    payee: Identity,
    winner: Identity,
    now: i64,
) -> Option<ErrorCode> {
    if wager.status != WagerStatus::Retractable && wager.status != WagerStatus::Disputed
        && wager.status != WagerStatus::Voting {
        Some(ErrorCode::InvalidStatus)
    } else if !wager.is_participant(winner) || payee != winner {
        Some(ErrorCode::InvalidWinner)
    } else if wager.status == WagerStatus::Retractable && now <= wager.retract_deadline {
        Some(ErrorCode::RetractPeriodNotExpired)
    } else if wager.status == WagerStatus::Retractable && !(wager.vote_player_a == Some(winner)
        && wager.vote_player_b == Some(winner)) {
        Some(ErrorCode::InvalidVote)
    } else if wager.status != WagerStatus::Retractable && wager.is_participant(authorizer) {
        Some(ErrorCode::Unauthorized)
    } else if 2 * wager.stake_lamports > u64::MAX {
        Some(ErrorCode::Overflow)
    } else {
        None
    }
}

/// The record after an accepted `resolve_wager`.
pub open spec fn resolved_wager(wager: WagerAccount, winner: Identity, now: i64) -> WagerAccount {
    WagerAccount { winner: Some(winner), status: WagerStatus::Resolved, resolved_at: now, ..wager }
}

/// Tells whether a recorded vote names `who`.
fn vote_names(vote: &Option<Identity>, who: &Identity) -> (yes: bool)
    ensures
        yes == (*vote == Some(*who)),
{
    match vote {
        Some(named) => *named == *who,
        None => false,
    }
}

/// Declares the winner and authorizes the payout of the whole pot, twice the
/// stake, to them. The settlement becomes `Resolved` and stays so.
pub fn resolve_wager(ctx: &mut ResolveWager, winner: Identity, now: i64) -> (result: Result<
    WagerResolved,
    ErrorCode,
>)
    ensures
        final(ctx).wager_key == old(ctx).wager_key,
        final(ctx).winner == old(ctx).winner,
        final(ctx).authorizer == old(ctx).authorizer,
        old(ctx).wager.wf() ==> final(ctx).wager.wf(),
        final(ctx).wager == step(
            old(ctx).wager,
            Action::Resolve {
                authorizer: old(ctx).authorizer,
                payee: old(ctx).winner,
                winner,
                now,
            },
        ),
        match result {
            Ok(event) => {
                &&& resolve_wager_check(
                    old(ctx).wager,
                    old(ctx).authorizer,
                    old(ctx).winner,
                    winner,
                    now,
                ) is None
                &&& final(ctx).wager == resolved_wager(old(ctx).wager, winner, now)
                &&& event == (WagerResolved {
                    wager_id: old(ctx).wager_key,
                    winner,
                    total_payout: (2 * old(ctx).wager.stake_lamports) as u64,
                })
                &&& event.total_payout == old(ctx).wager.held()
            },
            Err(e) => {
                &&& resolve_wager_check(
                    old(ctx).wager,
                    old(ctx).authorizer,
                    old(ctx).winner,
                    winner,
                    now,
                ) == Some(e)
                &&& final(ctx).wager == old(ctx).wager
            },
        },
{
    let retractable = ctx.wager.status == WagerStatus::Retractable;
    if !retractable && ctx.wager.status != WagerStatus::Disputed && ctx.wager.status
        != WagerStatus::Voting {
        return Err(ErrorCode::InvalidStatus);
    }
    if !ctx.wager.has_participant(&winner) || ctx.winner != winner {
        return Err(ErrorCode::InvalidWinner);
    }
    if retractable {
        if now <= ctx.wager.retract_deadline {
            return Err(ErrorCode::RetractPeriodNotExpired);
        }
        if !(vote_names(&ctx.wager.vote_player_a, &winner) && vote_names(
            &ctx.wager.vote_player_b,
            &winner,
        )) {
            return Err(ErrorCode::InvalidVote);
        }
    } else if ctx.wager.has_participant(&ctx.authorizer) {
        return Err(ErrorCode::Unauthorized);
    }
    let total_payout = match ctx.wager.stake_lamports.checked_mul(2) {
        Some(pot) => pot,
        None => {
            return Err(ErrorCode::Overflow);
        },
    };
    ctx.wager.winner = Some(winner);
    ctx.wager.status = WagerStatus::Resolved;
    ctx.wager.resolved_at = now;
    Ok(WagerResolved { wager_id: ctx.wager_key, winner, total_payout })
}

/// What `close_wager` works on: the settlement and its key, the accounts
/// that are to receive the refunds, the caller, and the platform authority.
pub struct CloseWager {
    pub wager_key: Identity,
    pub wager: WagerAccount,
    /// The account that the ledger will refund the first stake to.
    pub player_a: Identity,
    /// The account that the ledger will refund the second stake to.
    pub player_b: Identity,
    pub authorizer: Identity,
    pub authority: Identity,
}

/// Why `close_wager` rejects its input, if it does.
///
/// A participant or the platform authority may force-close a settlement that
/// is not final yet, once it is `MIN_CLOSE_AGE_SECONDS` old. The refund
/// accounts must be the participants; the second one is looked at only if a
/// second participant has staked.
pub open spec fn close_wager_check(
    wager: WagerAccount,
    authorizer: Identity,
    authority: Identity,
    payee_a: Identity,
    payee_b: Identity,
    now: i64,
) -> Option<ErrorCode> {
    if wager.status.is_terminal() {
        Some(ErrorCode::InvalidStatus)
    } else if !wager.is_participant(authorizer) && authorizer != authority {
        Some(ErrorCode::Unauthorized)
    } else if now < wager.created_at + MIN_CLOSE_AGE_SECONDS {
        Some(ErrorCode::CloseTooEarly)
    } else if payee_a != wager.player_a || (wager.status != WagerStatus::Created && payee_b
        != wager.player_b) {
        Some(ErrorCode::InvalidPlayer)
    } else {
        None
    }
}

/// The record after an accepted `close_wager`.
pub open spec fn closed_wager(wager: WagerAccount, now: i64) -> WagerAccount {
    WagerAccount { status: WagerStatus::Voided, resolved_at: now, ..wager }
}

/// What a force-close refunds to the second participant: the stake if they
/// have staked, else nothing.
pub open spec fn refund_of_player_b(wager: WagerAccount) -> u64 {
    if wager.status == WagerStatus::Created {
        0
    } else {
        wager.stake_lamports
    }
}

/// Force-closes a settlement that has not reached a final status and
/// authorizes the refund of each stake to the side that paid it. The
/// settlement becomes `Voided` and stays so.
pub fn close_wager(ctx: &mut CloseWager, now: i64) -> (result: Result<WagerClosed, ErrorCode>)
    ensures
        final(ctx).wager_key == old(ctx).wager_key,
        final(ctx).player_a == old(ctx).player_a,
        final(ctx).player_b == old(ctx).player_b,
        final(ctx).authorizer == old(ctx).authorizer,
        final(ctx).authority == old(ctx).authority,
        old(ctx).wager.wf() ==> final(ctx).wager.wf(),
        final(ctx).wager == step(
            old(ctx).wager,
            Action::Close {
                authorizer: old(ctx).authorizer,
                authority: old(ctx).authority,
                payee_a: old(ctx).player_a,
                payee_b: old(ctx).player_b,
                now,
            },
        ),
        match result {
            Ok(event) => {
                &&& close_wager_check(
                    old(ctx).wager,
                    old(ctx).authorizer,
                    old(ctx).authority,
                    old(ctx).player_a,
                    old(ctx).player_b,
                    now,
                ) is None
                &&& final(ctx).wager == closed_wager(old(ctx).wager, now)
                &&& event == (WagerClosed {
                    wager_id: old(ctx).wager_key,
                    refund_player_a: old(ctx).wager.stake_lamports,
                    refund_player_b: refund_of_player_b(old(ctx).wager),
                })
                &&& event.refund_player_a + event.refund_player_b == old(ctx).wager.held()
            },
            Err(e) => {
                &&& close_wager_check(
                    old(ctx).wager,
                    old(ctx).authorizer,
                    old(ctx).authority,
                    old(ctx).player_a,
                    old(ctx).player_b,
                    now,
                ) == Some(e)
                &&& final(ctx).wager == old(ctx).wager
            },
        },
{
    if ctx.wager.status.is_final() {
        return Err(ErrorCode::InvalidStatus);
    }
    if !ctx.wager.has_participant(&ctx.authorizer) && ctx.authorizer != ctx.authority {
        return Err(ErrorCode::Unauthorized);
    }
    let too_early = match ctx.wager.created_at.checked_add(MIN_CLOSE_AGE_SECONDS) {
        Some(earliest) => now < earliest,
        None => true,
    };
    if too_early {
        return Err(ErrorCode::CloseTooEarly);
    }
    let second_staked = ctx.wager.status != WagerStatus::Created;
    if ctx.player_a != ctx.wager.player_a || (second_staked && ctx.player_b
        != ctx.wager.player_b) {
        return Err(ErrorCode::InvalidPlayer);
    }
    let refund_player_b = if second_staked {
        ctx.wager.stake_lamports
    } else {
        0
    };
    ctx.wager.status = WagerStatus::Voided;
    ctx.wager.resolved_at = now;
    Ok(
        WagerClosed {
            wager_id: ctx.wager_key,
            refund_player_a: ctx.wager.stake_lamports,
            refund_player_b,
        },
    )
}

} // verus!
