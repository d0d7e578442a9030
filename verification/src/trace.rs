//! Histories of one settlement: what a sequence of attempted operations makes
//! of a record, which funds it moves, and the laws that hold of every such
//! history.

use crate::error::ErrorCode;
use crate::identity::Identity;
use crate::profile::PlayerProfile;
use crate::settlement::{
    close_wager_check, closed_wager, join_wager_check, joined_wager, refund_of_player_b,
    resolve_wager_check, resolved_wager, retract_vote_check, retracted_wager, submit_vote_check,
    voted_wager,
};
use crate::wager::{WagerAccount, WagerStatus, RETRACT_GRACE_SECONDS};
use vstd::prelude::*;

verus! {

/// One attempted operation on an existing settlement, with everything the
/// operation reads besides the record itself.
pub enum Action {
    Join {
        player_a_profile: PlayerProfile,
        player_b_profile: PlayerProfile,
        player_b: Identity,
        stake_lamports: u64,
        now: i64,
    },
    Vote { player: Identity, voted_winner: Identity, now: i64 },
    Retract { player: Identity, now: i64 },
    Resolve { authorizer: Identity, payee: Identity, winner: Identity, now: i64 },
    Close {
        authorizer: Identity,
        authority: Identity,
        payee_a: Identity,
        payee_b: Identity,
        now: i64,
    },
}

/// Why the operation is rejected on this record, if it is.
pub open spec fn rejection(wager: WagerAccount, action: Action) -> Option<ErrorCode> {
    match action {
        Action::Join { player_a_profile, player_b_profile, player_b, stake_lamports, now } => {
            join_wager_check(
                wager,
                player_a_profile,
                player_b_profile,
                player_b,
                stake_lamports,
                now,
            )
        },
        Action::Vote { player, voted_winner, now } => submit_vote_check(
            wager,
            player,
            voted_winner,
            now,
        ),
        Action::Retract { player, now } => retract_vote_check(wager, player, now),
        Action::Resolve { authorizer, payee, winner, now } => resolve_wager_check(
            wager,
            authorizer,
            payee,
            winner,
            now,
        ),
        Action::Close { authorizer, authority, payee_a, payee_b, now } => close_wager_check(
            wager,
            authorizer,
            authority,
            payee_a,
            payee_b,
            now,
        ),
    }
}

/// The record after the attempt: changed as the operation says when it is
/// accepted, untouched when it is rejected.
pub open spec fn step(wager: WagerAccount, action: Action) -> WagerAccount {
    if rejection(wager, action) is Some {
        wager
    } else {
        match action {
            Action::Join { player_b, .. } => joined_wager(wager, player_b),
            Action::Vote { player, voted_winner, now } => voted_wager(
                wager,
                player,
                voted_winner,
                now,
            ),
            Action::Retract { player, .. } => retracted_wager(wager, player),
            Action::Resolve { winner, now, .. } => resolved_wager(wager, winner, now),
            Action::Close { now, .. } => closed_wager(wager, now),
        }
    }
}

/// What the attempt has the ledger escrow: the second stake when a join is
/// accepted, nothing otherwise.
pub open spec fn escrowed_by(wager: WagerAccount, action: Action) -> int {
    if rejection(wager, action) is None && action is Join {
        wager.stake_lamports as int
    } else {
        0
    }
}

/// What the attempt has the ledger hand out: the pot when a resolution is
/// accepted, the refunds when a force-close is accepted, nothing otherwise.
pub open spec fn disbursed_by(wager: WagerAccount, action: Action) -> int {
    if rejection(wager, action) is Some {
        0
    } else if action is Resolve {
        2 * wager.stake_lamports
    } else if action is Close {
        wager.stake_lamports + refund_of_player_b(wager)
    } else {
        0
    }
}

/// The record after the attempts of `actions`, first to last.
pub open spec fn run(wager: WagerAccount, actions: Seq<Action>) -> WagerAccount
    decreases actions.len(),
{
    if actions.len() == 0 {
        wager
    } else {
        step(run(wager, actions.drop_last()), actions.last())
    }
}

/// Everything escrowed in the course of `actions`.
pub open spec fn total_escrowed(wager: WagerAccount, actions: Seq<Action>) -> int
    decreases actions.len(),
{
    if actions.len() == 0 {
        0
    } else {
        total_escrowed(wager, actions.drop_last()) + escrowed_by(
            run(wager, actions.drop_last()),
            actions.last(),
        )
    }
}

/// Everything paid out or refunded in the course of `actions`.
pub open spec fn total_disbursed(wager: WagerAccount, actions: Seq<Action>) -> int
    decreases actions.len(),
{
    if actions.len() == 0 {
        0
    } else {
        total_disbursed(wager, actions.drop_last()) + disbursed_by(
            run(wager, actions.drop_last()),
            actions.last(),
        )
    }
}

/// The arrows of the status graph.
pub open spec fn may_follow(from: WagerStatus, to: WagerStatus) -> bool {
    match (from, to) {
        (WagerStatus::Created, WagerStatus::Joined) => true,
        (WagerStatus::Joined, WagerStatus::Voting) => true,
        (WagerStatus::Voting, WagerStatus::Retractable) => true,
        (WagerStatus::Voting, WagerStatus::Disputed) => true,
        (WagerStatus::Voting, WagerStatus::Resolved) => true,
        (WagerStatus::Retractable, WagerStatus::Voting) => true,
        (WagerStatus::Retractable, WagerStatus::Resolved) => true,
        (WagerStatus::Disputed, WagerStatus::Resolved) => true,
        (from, WagerStatus::Voided) => !from.is_terminal(),
        _ => false,
    }
}

/// No attempt breaks the record's invariant.
pub proof fn lemma_step_keeps_wf(wager: WagerAccount, action: Action)
    requires
        wager.wf(),
    ensures
        step(wager, action).wf(),
{
}

/// Every attempt leaves the status where it is or moves it along one arrow of
/// the status graph.
pub proof fn lemma_step_follows_graph(wager: WagerAccount, action: Action)
    requires
        wager.wf(),
    ensures
        step(wager, action).status == wager.status || may_follow(
            wager.status,
            step(wager, action).status,
        ),
{
}

/// Every attempt conserves funds: what custody held plus what was escrowed is
/// what was handed out plus what custody holds afterwards.
pub proof fn lemma_step_conserves_funds(wager: WagerAccount, action: Action)
    ensures
        wager.held() + escrowed_by(wager, action) == disbursed_by(wager, action) + step(
            wager,
            action,
        ).held(),
{
}

/// A settlement in a final status is immutable: every operation on it is
/// rejected as invalid for the status, and nothing is handed out again.
pub proof fn law_final_status_is_immutable(wager: WagerAccount, action: Action)
    requires
        wager.status.is_terminal(),
    ensures
        rejection(wager, action) == Some(ErrorCode::InvalidStatus),
        step(wager, action) == wager,
        escrowed_by(wager, action) == 0,
        disbursed_by(wager, action) == 0,
{
}

/// The invariant of the record holds after any history.
pub proof fn law_history_keeps_wf(wager: WagerAccount, actions: Seq<Action>)
    requires
        wager.wf(),
    ensures
        run(wager, actions).wf(),
    decreases actions.len(),
{
    if actions.len() > 0 {
        law_history_keeps_wf(wager, actions.drop_last());
        lemma_step_keeps_wf(run(wager, actions.drop_last()), actions.last());
    }
}

/// Funds are neither created nor destroyed: over any history of a
/// settlement, what custody held at the start plus everything escrowed since
/// equals everything handed out plus what custody still holds. Once the
/// settlement is final custody holds nothing, so exactly what was escrowed
/// has been handed out.
pub proof fn law_funds_are_conserved(wager: WagerAccount, actions: Seq<Action>)
    ensures
        wager.held() + total_escrowed(wager, actions) == total_disbursed(wager, actions) + run(
            wager,
            actions,
        ).held(),
        run(wager, actions).status.is_terminal() ==> total_disbursed(wager, actions)
            == wager.held() + total_escrowed(wager, actions),
    decreases actions.len(),
{
    if actions.len() > 0 {
        law_funds_are_conserved(wager, actions.drop_last());
        lemma_step_conserves_funds(run(wager, actions.drop_last()), actions.last());
    }
}

/// The status of a settlement travels along the status graph: between any
/// two consecutive attempts of a history it stays or follows one arrow.
pub proof fn law_status_follows_graph(wager: WagerAccount, actions: Seq<Action>, i: int)
    requires
        wager.wf(),
        0 <= i < actions.len(),
    ensures
        ({
            let before = run(wager, actions.take(i)).status;
            let after = run(wager, actions.take(i + 1)).status;
            after == before || may_follow(before, after)
        }),
{
    let prefix = actions.take(i + 1);
    assert(prefix.drop_last() =~= actions.take(i));
    assert(prefix.last() == actions[i]);
    law_history_keeps_wf(wager, actions.take(i));
    lemma_step_follows_graph(run(wager, actions.take(i)), actions[i]);
}

/// No arrow leads from `Created` to `Resolved`, and no single operation takes
/// a settlement that only one side has staked on to a payout.
pub proof fn law_no_payout_before_joining(wager: WagerAccount, action: Action)
    requires
        wager.status == WagerStatus::Created,
    ensures
        !may_follow(WagerStatus::Created, WagerStatus::Resolved),
        step(wager, action).status != WagerStatus::Resolved,
        !(action is Resolve) ==> disbursed_by(wager, action) <= wager.stake_lamports,
        action is Resolve ==> disbursed_by(wager, action) == 0,
{
}

/// True when the settlement had the status `first` at some point of the
/// history and the status `then` at a later one.
pub open spec fn passed_through(
    wager: WagerAccount,
    actions: Seq<Action>,
    first: WagerStatus,
    then: WagerStatus,
) -> bool {
    exists|i: int, j: int|
        0 <= i < j <= actions.len() && #[trigger] run(wager, actions.take(i)).status == first
            && #[trigger] run(wager, actions.take(j)).status == then
}

/// True of the statuses in which votes are or were collected.
pub open spec fn has_seen_votes(status: WagerStatus) -> bool {
    status == WagerStatus::Voting || status == WagerStatus::Retractable || status
        == WagerStatus::Disputed || status == WagerStatus::Resolved
}

/// A history that has left a settlement joined has passed `Joined`; one that
/// has left it in or beyond voting has passed `Joined` and then `Voting`.
proof fn lemma_history_takes_the_long_way(wager: WagerAccount, actions: Seq<Action>)
    requires
        wager.wf(),
        wager.status == WagerStatus::Created,
    ensures
        run(wager, actions).status == WagerStatus::Joined ==> passed_through(
            wager,
            actions,
            WagerStatus::Created,
            WagerStatus::Joined,
        ),
        has_seen_votes(run(wager, actions).status) ==> passed_through(
            wager,
            actions,
            WagerStatus::Joined,
            WagerStatus::Voting,
        ),
    decreases actions.len(),
{
    let n = actions.len() as int;
    let now = run(wager, actions).status;
    assert(actions.take(n) =~= actions);
    assert(actions.take(0) =~= Seq::<Action>::empty());
    if n > 0 {
        let earlier = actions.drop_last();
        let before = run(wager, earlier).status;
        lemma_history_takes_the_long_way(wager, earlier);
        law_history_keeps_wf(wager, earlier);
        lemma_step_follows_graph(run(wager, earlier), actions.last());
        assert(actions.take(n - 1) =~= earlier);
        assert forall|i: int| 0 <= i <= n - 1 implies #[trigger] earlier.take(i) == actions.take(
            i,
        ) by {
            assert(earlier.take(i) =~= actions.take(i));
        }
        if now == WagerStatus::Joined {
            if before == WagerStatus::Joined {
                let (i, j) = choose|i: int, j: int|
                    0 <= i < j <= earlier.len() && #[trigger] run(wager, earlier.take(i)).status
                        == WagerStatus::Created && #[trigger] run(wager, earlier.take(j)).status
                        == WagerStatus::Joined;
                assert(run(wager, actions.take(i)).status == WagerStatus::Created);
                assert(run(wager, actions.take(j)).status == WagerStatus::Joined);
            } else {
                assert(before == WagerStatus::Created);
                assert(run(wager, actions.take(n - 1)).status == WagerStatus::Created);
                assert(run(wager, actions.take(n)).status == WagerStatus::Joined);
            }
        }
        if has_seen_votes(now) {
            if has_seen_votes(before) {
                let (i, j) = choose|i: int, j: int|
                    0 <= i < j <= earlier.len() && #[trigger] run(wager, earlier.take(i)).status
                        == WagerStatus::Joined && #[trigger] run(wager, earlier.take(j)).status
                        == WagerStatus::Voting;
                assert(run(wager, actions.take(i)).status == WagerStatus::Joined);
                assert(run(wager, actions.take(j)).status == WagerStatus::Voting);
            } else {
                assert(before == WagerStatus::Joined && now == WagerStatus::Voting);
                assert(run(wager, actions.take(n - 1)).status == WagerStatus::Joined);
                assert(run(wager, actions.take(n)).status == WagerStatus::Voting);
            }
        }
    }
}

/// A payout takes the whole way: a settlement that a history has resolved
/// was joined by the second participant at some point of that history and
/// was in voting at a later one.
pub proof fn law_payout_only_after_voting(wager: WagerAccount, actions: Seq<Action>)
    requires
        wager.wf(),
        wager.status == WagerStatus::Created,
        run(wager, actions).status == WagerStatus::Resolved,
    ensures
        passed_through(wager, actions, WagerStatus::Joined, WagerStatus::Voting),
{
    lemma_history_takes_the_long_way(wager, actions);
}

/// What an accepted vote makes of a settlement: with one vote in, it is in
/// voting; with two that agree, it is retractable until the grace period
/// after the vote has run out; with two that differ, it is disputed if it
/// asks for an arbiter and in voting if it does not.
pub proof fn law_votes_decide_the_status(
    wager: WagerAccount,
    player: Identity,
    voted_winner: Identity,
    now: i64,
)
    requires
        wager.wf(),
        submit_vote_check(wager, player, voted_winner, now) is None,
    ensures
        ({
            let after = voted_wager(wager, player, voted_winner, now);
            &&& after.vote_of(player) == Some(voted_winner)
            &&& after.status == if after.votes_agree() {
                WagerStatus::Retractable
            } else if after.votes_differ() && after.requires_moderator {
                WagerStatus::Disputed
            } else {
                WagerStatus::Voting
            }
            &&& after.votes_agree() ==> after.retract_deadline == now + RETRACT_GRACE_SECONDS
        }),
{
}

/// While votes can still be retracted nobody can finalize: up to and at the
/// retraction deadline every resolution of a retractable settlement is
/// rejected, and for a valid winner the reason is the running grace period.
pub proof fn law_no_finalize_before_deadline(
    wager: WagerAccount,
    authorizer: Identity,
    payee: Identity,
    winner: Identity,
    now: i64,
)
    requires
        wager.status == WagerStatus::Retractable,
        now <= wager.retract_deadline,
    ensures
        resolve_wager_check(wager, authorizer, payee, winner, now) is Some,
        wager.is_participant(winner) && payee == winner ==> resolve_wager_check(
            wager,
            authorizer,
            payee,
            winner,
            now,
        ) == Some(ErrorCode::RetractPeriodNotExpired),
{
}

/// After the retraction deadline the agreed winner can be finalized by
/// anyone, and only once: the settlement is then resolved in their favour,
/// and every further resolution, whoever asks and whomever it names, is
/// rejected as invalid for the status.
pub proof fn law_finalize_succeeds_once(
    wager: WagerAccount,
    agreed: Identity,
    authorizer: Identity,
    now: i64,
    again: Action,
)
    requires
        wager.wf(),
        wager.status == WagerStatus::Retractable,
        wager.vote_player_a == Some(agreed),
        wager.vote_player_b == Some(agreed),
        now > wager.retract_deadline,
        again is Resolve,
    ensures
        resolve_wager_check(wager, authorizer, agreed, agreed, now) is None,
        resolved_wager(wager, agreed, now).status == WagerStatus::Resolved,
        resolved_wager(wager, agreed, now).winner == Some(agreed),
        rejection(resolved_wager(wager, agreed, now), again) == Some(ErrorCode::InvalidStatus),
{
}

/// A participant without a recorded vote cannot retract one, whatever the
/// status and the time.
pub proof fn law_retract_needs_a_vote(wager: WagerAccount, player: Identity, now: i64)
    requires
        wager.vote_of(player) is None,
    ensures
        retract_vote_check(wager, player, now) is Some,
        wager.status == WagerStatus::Retractable && now < wager.retract_deadline
            && wager.is_participant(player) ==> retract_vote_check(wager, player, now) == Some(
            ErrorCode::NothingToRetract,
        ),
{
}

/// A participant who has retracted cannot retract again: right after an
/// accepted retraction, a second one by the same participant is rejected at
/// any time.
pub proof fn law_retract_twice_fails(wager: WagerAccount, player: Identity, now: i64, later: i64)
    requires
        retract_vote_check(wager, player, now) is None,
    ensures
        retract_vote_check(retracted_wager(wager, player), player, later) is Some,
{
    law_retract_needs_a_vote(retracted_wager(wager, player), player, later);
}

/// A dispute is decided by an outsider only: with a valid winner, a
/// resolution of a disputed settlement is rejected as unauthorized when a
/// participant asks for it and accepted when anyone else does.
pub proof fn law_dispute_needs_an_outsider(
    wager: WagerAccount,
    authorizer: Identity,
    winner: Identity,
    now: i64,
)
    requires
        wager.wf(),
        wager.status == WagerStatus::Disputed,
        wager.is_participant(winner),
    ensures
        wager.is_participant(authorizer) ==> resolve_wager_check(
            wager,
            authorizer,
            winner,
            winner,
            now,
        ) == Some(ErrorCode::Unauthorized),
        !wager.is_participant(authorizer) ==> resolve_wager_check(
            wager,
            authorizer,
            winner,
            winner,
            now,
        ) is None,
{
}

} // verus!
