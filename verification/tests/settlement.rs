use gamegambit::{
    close_wager, create_wager, join_wager, resolve_wager, retract_vote, submit_vote, CloseWager,
    CreateWager, ErrorCode, Identity, JoinWager, PlayerProfile, ResolveWager, RetractVote,
    SubmitVote, VoteRetracted, VoteSubmitted, WagerAccount, WagerClosed, WagerCreated,
    WagerJoined, WagerResolved, WagerStatus, MAX_LICHESS_GAME_ID_LENGTH, MIN_CLOSE_AGE_SECONDS,
    RETRACT_GRACE_SECONDS,
};

const KEY: u8 = 200;
const A: u8 = 1;
const B: u8 = 2;
const C: u8 = 3;

fn id(n: u8) -> Identity {
    Identity::new([n; 32])
}

fn profile_of(player: Identity) -> PlayerProfile {
    let mut profile = PlayerProfile::default();
    profile.player = player;
    profile
}

fn banned_until(player: Identity, until: i64) -> PlayerProfile {
    let mut profile = profile_of(player);
    profile.is_banned = true;
    profile.ban_expires_at = until;
    profile
}

fn blank_wager() -> WagerAccount {
    WagerAccount {
        player_a: Identity::default(),
        player_b: Identity::default(),
        match_id: 0,
        stake_lamports: 0,
        lichess_game_id: String::new(),
        status: WagerStatus::Created,
        requires_moderator: false,
        vote_player_a: None,
        vote_player_b: None,
        winner: None,
        vote_timestamp: 0,
        retract_deadline: 0,
        created_at: 0,
        resolved_at: 0,
    }
}

fn create_ctx() -> CreateWager {
    CreateWager {
        wager_key: id(KEY),
        wager: blank_wager(),
        player_a_profile: profile_of(id(A)),
        player_a: id(A),
    }
}

fn created(stake: u64, requires_moderator: bool, now: i64) -> WagerAccount {
    let mut ctx = create_ctx();
    create_wager(&mut ctx, 7, stake, String::from("abcd1234"), requires_moderator, now).unwrap();
    ctx.wager
}

fn join_ctx(wager: WagerAccount) -> JoinWager {
    JoinWager {
        wager_key: id(KEY),
        wager,
        player_a_profile: profile_of(id(A)),
        player_b_profile: profile_of(id(B)),
        player_b: id(B),
    }
}

fn joined(stake: u64, requires_moderator: bool, now: i64) -> WagerAccount {
    let mut ctx = join_ctx(created(stake, requires_moderator, now));
    join_wager(&mut ctx, stake, now).unwrap();
    ctx.wager
}

fn vote(
    wager: WagerAccount,
    player: u8,
    winner: u8,
    now: i64,
) -> (WagerAccount, Result<VoteSubmitted, ErrorCode>) {
    let mut ctx = SubmitVote { wager_key: id(KEY), wager, player: id(player) };
    let result = submit_vote(&mut ctx, id(winner), now);
    (ctx.wager, result)
}

fn retract(
    wager: WagerAccount,
    player: u8,
    now: i64,
) -> (WagerAccount, Result<VoteRetracted, ErrorCode>) {
    let mut ctx = RetractVote { wager_key: id(KEY), wager, player: id(player) };
    let result = retract_vote(&mut ctx, now);
    (ctx.wager, result)
}

fn resolve(
    wager: WagerAccount,
    authorizer: u8,
    winner: u8,
    now: i64,
) -> (WagerAccount, Result<WagerResolved, ErrorCode>) {
    let mut ctx =
        ResolveWager { wager_key: id(KEY), wager, winner: id(winner), authorizer: id(authorizer) };
    let result = resolve_wager(&mut ctx, id(winner), now);
    (ctx.wager, result)
}

fn close(
    wager: WagerAccount,
    authorizer: u8,
    now: i64,
) -> (WagerAccount, Result<WagerClosed, ErrorCode>) {
    let mut ctx = CloseWager {
        wager_key: id(KEY),
        wager,
        player_a: id(A),
        player_b: id(B),
        authorizer: id(authorizer),
        authority: id(C),
    };
    let result = close_wager(&mut ctx, now);
    (ctx.wager, result)
}

/// Both participants have voted for `winner` at time 20; the deadline is 320.
fn agreed(stake: u64, winner: u8) -> WagerAccount {
    let wager = joined(stake, false, 0);
    let (wager, r) = vote(wager, A, winner, 10);
    r.unwrap();
    let (wager, r) = vote(wager, B, winner, 20);
    r.unwrap();
    wager
}

#[test]
fn constants_have_the_documented_values() {
    assert_eq!(MAX_LICHESS_GAME_ID_LENGTH, 20);
    assert_eq!(RETRACT_GRACE_SECONDS, 300);
    assert_eq!(MIN_CLOSE_AGE_SECONDS, 3600);
}

#[test]
fn create_fills_the_record_and_asks_for_the_stake() {
    let mut ctx = create_ctx();
    ctx.wager = agreed(5, A);
    let event = create_wager(&mut ctx, 42, 100, String::from("game-1"), true, 1_000).unwrap();
    assert_eq!(
        event,
        WagerCreated { wager_id: id(KEY), player_a: id(A), match_id: 42, stake_lamports: 100 }
    );
    assert_eq!(
        ctx.wager,
        WagerAccount {
            player_a: id(A),
            player_b: Identity::default(),
            match_id: 42,
            stake_lamports: 100,
            lichess_game_id: String::from("game-1"),
            status: WagerStatus::Created,
            requires_moderator: true,
            vote_player_a: None,
            vote_player_b: None,
            winner: None,
            vote_timestamp: 0,
            retract_deadline: 0,
            created_at: 1_000,
            resolved_at: 0,
        }
    );
    assert_eq!(ctx.player_a, id(A));
    assert_eq!(ctx.wager_key, id(KEY));
}

#[test]
fn create_rejects_bad_input_in_order() {
    let mut ctx = create_ctx();
    ctx.player_a_profile = banned_until(id(A), 2_000);
    let long = "x".repeat(21);
    assert_eq!(
        create_wager(&mut ctx, 0, 0, long.clone(), false, 1_000),
        Err(ErrorCode::InvalidAmount)
    );
    assert_eq!(
        create_wager(&mut ctx, 0, 1, long.clone(), false, 1_000),
        Err(ErrorCode::InvalidMatchId)
    );
    assert_eq!(
        create_wager(&mut ctx, 1, 1, long, false, 1_000),
        Err(ErrorCode::LichessGameIdTooLong)
    );
    assert_eq!(
        create_wager(&mut ctx, 1, 1, "x".repeat(20), false, 1_000),
        Err(ErrorCode::PlayerBanned)
    );
    assert_eq!(ctx.wager, blank_wager());
    // The ban has run out at the time it names.
    assert!(create_wager(&mut ctx, 1, 1, "x".repeat(20), false, 2_000).is_ok());
}

#[test]
fn game_id_length_counts_bytes() {
    let mut ctx = create_ctx();
    // Seven characters of three bytes each.
    let id_21_bytes = "\u{20ac}".repeat(7);
    assert_eq!(id_21_bytes.chars().count(), 7);
    assert_eq!(
        create_wager(&mut ctx, 1, 1, id_21_bytes, false, 0),
        Err(ErrorCode::LichessGameIdTooLong)
    );
    let id_20_bytes = format!("{}ab", "\u{20ac}".repeat(6));
    assert!(create_wager(&mut ctx, 1, 1, id_20_bytes, false, 0).is_ok());
}

#[test]
fn join_records_the_second_participant() {
    let mut ctx = join_ctx(created(100, false, 1_000));
    let before = ctx.wager.clone();
    let event = join_wager(&mut ctx, 100, 1_005).unwrap();
    assert_eq!(event, WagerJoined { wager_id: id(KEY), player_b: id(B), stake_lamports: 100 });
    assert_eq!(
        ctx.wager,
        WagerAccount { player_b: id(B), status: WagerStatus::Joined, ..before }
    );
}

#[test]
fn join_rejects_bad_input_in_order() {
    let open = created(100, false, 1_000);

    let mut ctx = join_ctx(joined(100, false, 1_000));
    assert_eq!(join_wager(&mut ctx, 99, 1_005), Err(ErrorCode::InvalidStatus));

    let mut ctx = join_ctx(open.clone());
    ctx.player_b_profile = banned_until(id(B), 5_000);
    ctx.player_b = id(A);
    assert_eq!(join_wager(&mut ctx, 99, 1_005), Err(ErrorCode::InvalidAmount));
    assert_eq!(join_wager(&mut ctx, 100, 1_005), Err(ErrorCode::PlayerBanned));
    assert_eq!(join_wager(&mut ctx, 100, 5_000), Err(ErrorCode::InvalidPlayer));
    assert_eq!(ctx.wager, open);

    // The first participant must not be banned either.
    let mut ctx = join_ctx(open.clone());
    ctx.player_a_profile = banned_until(id(A), 5_000);
    assert_eq!(join_wager(&mut ctx, 100, 1_005), Err(ErrorCode::PlayerBanned));

    let mut ctx = join_ctx(WagerAccount { match_id: 0, ..open.clone() });
    assert_eq!(join_wager(&mut ctx, 100, 1_005), Err(ErrorCode::InvalidMatchId));

    let mut ctx = join_ctx(WagerAccount { stake_lamports: 0, ..open });
    assert_eq!(join_wager(&mut ctx, 0, 1_005), Err(ErrorCode::InvalidAmount));
}

#[test]
fn join_refuses_a_pot_that_does_not_fit() {
    let stake = u64::MAX / 2 + 1;
    let mut ctx = join_ctx(created(stake, false, 0));
    assert_eq!(join_wager(&mut ctx, stake, 0), Err(ErrorCode::Overflow));
    assert_eq!(ctx.wager.status, WagerStatus::Created);

    let stake = u64::MAX / 2;
    let mut ctx = join_ctx(created(stake, false, 0));
    assert!(join_wager(&mut ctx, stake, 0).is_ok());
    let (wager, _) = vote(ctx.wager, A, A, 1);
    let (wager, _) = vote(wager, B, A, 2);
    let (_, r) = resolve(wager, A, A, 303);
    assert_eq!(r.unwrap().total_payout, u64::MAX - 1);
}

#[test]
fn first_vote_opens_the_voting() {
    let wager = joined(100, false, 1_000);
    let (wager, r) = vote(wager, B, A, 1_010);
    assert_eq!(r, Ok(VoteSubmitted { wager_id: id(KEY), player: id(B), voted_winner: id(A) }));
    assert_eq!(wager.status, WagerStatus::Voting);
    assert_eq!(wager.vote_timestamp, 1_010);
    assert_eq!(wager.vote_player_a, None);
    assert_eq!(wager.vote_player_b, Some(id(A)));
    assert_eq!(wager.retract_deadline, 0);
}

#[test]
fn vote_rejects_bad_input_in_order() {
    let (wager, r) = vote(created(100, false, 0), C, C, 10);
    assert_eq!(r, Err(ErrorCode::InvalidStatus));
    assert_eq!(wager.status, WagerStatus::Created);

    let wager = joined(100, false, 0);
    let (wager, r) = vote(wager, C, C, 10);
    assert_eq!(r, Err(ErrorCode::Unauthorized));
    let (wager, r) = vote(wager, A, C, 10);
    assert_eq!(r, Err(ErrorCode::InvalidVote));
    assert_eq!(wager, joined(100, false, 0));

    let (wager, r) = vote(wager, A, B, 10);
    assert!(r.is_ok());
    let (wager, r) = vote(wager, A, B, 11);
    assert_eq!(r, Err(ErrorCode::AlreadyVoted));
    let (wager, r) = vote(wager, A, A, 11);
    assert_eq!(r, Err(ErrorCode::AlreadyVoted));
    assert_eq!(wager.vote_player_a, Some(id(B)));

    let (wager, r) = vote(wager, B, B, i64::MAX - 299);
    assert_eq!(r, Err(ErrorCode::Overflow));
    assert_eq!(wager.vote_player_b, None);
    assert_eq!(wager.status, WagerStatus::Voting);
    let (wager, r) = vote(wager, B, B, i64::MAX - 300);
    assert!(r.is_ok());
    assert_eq!(wager.retract_deadline, i64::MAX);

    let (_, r) = vote(wager, B, B, 12);
    assert_eq!(r, Err(ErrorCode::InvalidStatus));
}

#[test]
fn differing_votes_without_arbitration_stay_in_voting() {
    let wager = joined(100, false, 0);
    let (wager, _) = vote(wager, A, A, 10);
    let (wager, r) = vote(wager, B, B, 20);
    assert!(r.is_ok());
    assert_eq!(wager.status, WagerStatus::Voting);
    assert_eq!(wager.vote_timestamp, 10);

    // Neither participant can decide; an outsider can, at once.
    let (wager, r) = resolve(wager, A, A, 21);
    assert_eq!(r, Err(ErrorCode::Unauthorized));
    let (wager, r) = resolve(wager, B, A, 21);
    assert_eq!(r, Err(ErrorCode::Unauthorized));
    let (wager, r) = resolve(wager, C, B, 21);
    assert_eq!(r, Ok(WagerResolved { wager_id: id(KEY), winner: id(B), total_payout: 200 }));
    assert_eq!(wager.status, WagerStatus::Resolved);
}

#[test]
fn an_outsider_resolves_a_stalled_vote() {
    let wager = joined(100, true, 0);
    let (wager, _) = vote(wager, A, A, 10);
    let (wager, r) = resolve(wager, C, A, 11);
    assert_eq!(r.unwrap().total_payout, 200);
    assert_eq!(wager.winner, Some(id(A)));
    assert_eq!(wager.resolved_at, 11);
}

#[test]
fn agreed_votes_pay_the_winner_after_the_grace_period() {
    let wager = joined(100, false, 1_000);
    let (wager, r) = vote(wager, A, A, 1_010);
    assert!(r.is_ok());
    assert_eq!(wager.status, WagerStatus::Voting);
    let (wager, r) = vote(wager, B, A, 1_020);
    assert!(r.is_ok());
    assert_eq!(wager.status, WagerStatus::Retractable);
    assert_eq!(wager.retract_deadline, 1_320);

    let (wager, r) = resolve(wager, A, A, 1_319);
    assert_eq!(r, Err(ErrorCode::RetractPeriodNotExpired));
    let (wager, r) = resolve(wager, A, A, 1_320);
    assert_eq!(r, Err(ErrorCode::RetractPeriodNotExpired));
    assert_eq!(wager.status, WagerStatus::Retractable);

    let (wager, r) = resolve(wager, A, A, 1_321);
    assert_eq!(r, Ok(WagerResolved { wager_id: id(KEY), winner: id(A), total_payout: 200 }));
    assert_eq!(wager.status, WagerStatus::Resolved);
    assert_eq!(wager.winner, Some(id(A)));
    assert_eq!(wager.resolved_at, 1_321);

    let (wager, r) = resolve(wager, A, A, 1_322);
    assert_eq!(r, Err(ErrorCode::InvalidStatus));
    let (wager, r) = resolve(wager, C, B, 1_322);
    assert_eq!(r, Err(ErrorCode::InvalidStatus));

    let (wager, r) = close(wager, A, 1_000_000);
    assert_eq!(r, Err(ErrorCode::InvalidStatus));
    assert_eq!(wager.status, WagerStatus::Resolved);
    assert_eq!(wager.winner, Some(id(A)));
}

#[test]
fn anyone_may_finalize_an_agreement() {
    let (wager, r) = resolve(agreed(100, B), C, B, 321);
    assert_eq!(r.unwrap().total_payout, 200);
    assert_eq!(wager.winner, Some(id(B)));
}

#[test]
fn finalize_needs_the_agreed_winner() {
    let wager = agreed(100, B);
    let (wager, r) = resolve(wager, A, A, 321);
    assert_eq!(r, Err(ErrorCode::InvalidVote));
    let (wager, r) = resolve(wager, A, C, 321);
    assert_eq!(r, Err(ErrorCode::InvalidWinner));

    // The account to be paid must be the winner's.
    let mut ctx =
        ResolveWager { wager_key: id(KEY), wager, winner: id(A), authorizer: id(A) };
    assert_eq!(resolve_wager(&mut ctx, id(B), 321), Err(ErrorCode::InvalidWinner));
    ctx.winner = id(B);
    assert!(resolve_wager(&mut ctx, id(B), 321).is_ok());
}

#[test]
fn resolve_rejects_settlements_without_votes() {
    let (_, r) = resolve(created(100, false, 0), C, A, 10);
    assert_eq!(r, Err(ErrorCode::InvalidStatus));
    let (_, r) = resolve(joined(100, false, 0), C, A, 10);
    assert_eq!(r, Err(ErrorCode::InvalidStatus));
}

#[test]
fn disputed_votes_need_a_third_party() {
    let wager = joined(100, true, 1_000);
    let (wager, _) = vote(wager, A, A, 1_010);
    let (wager, r) = vote(wager, B, B, 1_020);
    assert!(r.is_ok());
    assert_eq!(wager.status, WagerStatus::Disputed);

    let (wager, r) = resolve(wager, A, A, 1_030);
    assert_eq!(r, Err(ErrorCode::Unauthorized));
    let (wager, r) = resolve(wager, B, B, 1_030);
    assert_eq!(r, Err(ErrorCode::Unauthorized));
    let (wager, r) = resolve(wager, B, A, 1_030);
    assert_eq!(r, Err(ErrorCode::Unauthorized));
    assert_eq!(wager.status, WagerStatus::Disputed);
    assert_eq!(wager.winner, None);

    let (wager, r) = resolve(wager, C, B, 1_030);
    assert_eq!(r, Ok(WagerResolved { wager_id: id(KEY), winner: id(B), total_payout: 200 }));
    assert_eq!(wager.status, WagerStatus::Resolved);
    assert_eq!(wager.winner, Some(id(B)));
}

#[test]
fn disputed_settlement_takes_no_votes_and_no_retraction() {
    let wager = joined(100, true, 0);
    let (wager, _) = vote(wager, A, A, 10);
    let (wager, _) = vote(wager, B, B, 20);
    let (wager, r) = vote(wager, A, B, 30);
    assert_eq!(r, Err(ErrorCode::InvalidStatus));
    let (_, r) = retract(wager, A, 30);
    assert_eq!(r, Err(ErrorCode::InvalidStatus));
}

#[test]
fn retraction_clears_one_vote_at_a_time() {
    let wager = agreed(50, B);
    assert_eq!(wager.status, WagerStatus::Retractable);
    assert_eq!(wager.retract_deadline, 320);

    let (wager, r) = retract(wager, A, 320);
    assert_eq!(r, Err(ErrorCode::RetractExpired));
    let (wager, r) = retract(wager, C, 319);
    assert_eq!(r, Err(ErrorCode::Unauthorized));
    let (wager, r) = retract(wager, A, 319);
    assert_eq!(r, Ok(VoteRetracted { wager_id: id(KEY), player: id(A) }));
    assert_eq!(wager.status, WagerStatus::Retractable);
    assert_eq!(wager.vote_player_a, None);
    assert_eq!(wager.vote_player_b, Some(id(B)));

    // A second retraction by the same participant finds no vote.
    let (wager, r) = retract(wager, A, 319);
    assert_eq!(r, Err(ErrorCode::NothingToRetract));

    // With one vote missing nobody can finalize.
    let (wager, r) = resolve(wager.clone(), B, B, 321);
    assert_eq!(r, Err(ErrorCode::InvalidVote));

    let (wager, r) = retract(wager, B, 319);
    assert!(r.is_ok());
    assert_eq!(wager.status, WagerStatus::Voting);
    assert_eq!(wager.vote_player_b, None);

    // Both vote again, and agree on the other winner.
    let (wager, _) = vote(wager, A, A, 400);
    let (wager, _) = vote(wager, B, A, 410);
    assert_eq!(wager.status, WagerStatus::Retractable);
    assert_eq!(wager.retract_deadline, 710);
    assert_eq!(wager.vote_timestamp, 10);
}

#[test]
fn retraction_needs_a_retractable_settlement() {
    let (_, r) = retract(joined(100, false, 0), A, 10);
    assert_eq!(r, Err(ErrorCode::InvalidStatus));
    let (wager, _) = vote(joined(100, false, 0), A, A, 10);
    let (_, r) = retract(wager, A, 11);
    assert_eq!(r, Err(ErrorCode::InvalidStatus));
    let (wager, _) = resolve(agreed(100, A), A, A, 321);
    let (_, r) = retract(wager, A, 322);
    assert_eq!(r, Err(ErrorCode::InvalidStatus));
}

#[test]
fn force_close_refunds_who_has_staked() {
    let (wager, r) = close(created(100, false, 1_000), A, 4_600);
    assert_eq!(
        r,
        Ok(WagerClosed { wager_id: id(KEY), refund_player_a: 100, refund_player_b: 0 })
    );
    assert_eq!(wager.status, WagerStatus::Voided);
    assert_eq!(wager.resolved_at, 4_600);

    let (wager, r) = close(joined(100, false, 1_000), B, 4_600);
    assert_eq!(
        r,
        Ok(WagerClosed { wager_id: id(KEY), refund_player_a: 100, refund_player_b: 100 })
    );
    assert_eq!(wager.status, WagerStatus::Voided);

    let (wager, r) = close(agreed(70, A), C, 3_600);
    assert_eq!(
        r,
        Ok(WagerClosed { wager_id: id(KEY), refund_player_a: 70, refund_player_b: 70 })
    );
    assert_eq!(wager.winner, None);

    // Closed is final.
    let (wager, r) = close(wager, C, 3_601);
    assert_eq!(r, Err(ErrorCode::InvalidStatus));
    let (wager, r) = resolve(wager, C, A, 3_601);
    assert_eq!(r, Err(ErrorCode::InvalidStatus));
    let (wager, r) = vote(wager, A, A, 3_601);
    assert_eq!(r, Err(ErrorCode::InvalidStatus));
    let mut ctx = join_ctx(wager);
    assert_eq!(join_wager(&mut ctx, 70, 3_601), Err(ErrorCode::InvalidStatus));
}

#[test]
fn force_close_rejects_bad_input_in_order() {
    let wager = joined(100, false, 1_000);
    let mut ctx = CloseWager {
        wager_key: id(KEY),
        wager: wager.clone(),
        player_a: id(C),
        player_b: id(C),
        authorizer: id(9),
        authority: id(C),
    };
    assert_eq!(close_wager(&mut ctx, 0), Err(ErrorCode::Unauthorized));
    ctx.authorizer = id(C);
    assert_eq!(close_wager(&mut ctx, 4_599), Err(ErrorCode::CloseTooEarly));
    assert_eq!(close_wager(&mut ctx, 4_600), Err(ErrorCode::InvalidPlayer));
    ctx.player_a = id(A);
    assert_eq!(close_wager(&mut ctx, 4_600), Err(ErrorCode::InvalidPlayer));
    assert_eq!(ctx.wager, wager);
    ctx.player_b = id(B);
    assert!(close_wager(&mut ctx, 4_600).is_ok());

    // Before the second stake only the first refund account is looked at.
    let mut ctx = CloseWager {
        wager_key: id(KEY),
        wager: created(100, false, 1_000),
        player_a: id(A),
        player_b: id(C),
        authorizer: id(A),
        authority: id(C),
    };
    assert!(close_wager(&mut ctx, 4_600).is_ok());
}

#[test]
fn force_close_of_a_settlement_created_at_the_end_of_time() {
    let (wager, r) = close(created(100, false, i64::MAX - 3_599), A, i64::MAX);
    assert_eq!(r, Err(ErrorCode::CloseTooEarly));
    assert_eq!(wager.status, WagerStatus::Created);
    let (_, r) = close(created(100, false, i64::MAX - 3_600), A, i64::MAX);
    assert!(r.is_ok());
}

#[test]
fn funds_handed_out_equal_funds_escrowed() {
    // Resolved: two stakes in, one pot out.
    let mut ctx = create_ctx();
    let mut escrowed =
        create_wager(&mut ctx, 7, 100, String::from("g"), false, 0).unwrap().stake_lamports;
    let mut ctx = join_ctx(ctx.wager);
    escrowed += join_wager(&mut ctx, 100, 1).unwrap().stake_lamports;
    let (wager, _) = vote(ctx.wager, A, B, 2);
    let (wager, _) = vote(wager, B, B, 3);
    let (_, r) = resolve(wager, A, B, 304);
    assert_eq!(r.unwrap().total_payout, escrowed);

    // Voided before the second stake: one stake in, one refund out.
    let mut ctx = create_ctx();
    let escrowed =
        create_wager(&mut ctx, 7, 100, String::from("g"), false, 0).unwrap().stake_lamports;
    let (_, r) = close(ctx.wager, A, 3_600);
    let refund = r.unwrap();
    assert_eq!(refund.refund_player_a + refund.refund_player_b, escrowed);
}

#[test]
fn records_left_by_the_operations_are_well_formed() {
    assert!(!blank_wager().is_well_formed());
    assert!(created(100, true, 0).is_well_formed());
    let wager = joined(100, true, 0);
    assert!(wager.is_well_formed());
    let (wager, _) = vote(wager, A, A, 1);
    assert!(wager.is_well_formed());
    let (wager, _) = vote(wager, B, B, 2);
    assert_eq!(wager.status, WagerStatus::Disputed);
    assert!(wager.is_well_formed());
    let (wager, _) = resolve(wager, C, A, 3);
    assert!(wager.is_well_formed());

    let wager = agreed(100, A);
    assert!(wager.is_well_formed());
    let (wager, _) = retract(wager, B, 30);
    assert!(wager.is_well_formed());
    let (wager, _) = retract(wager, A, 31);
    assert!(wager.is_well_formed());
    let (wager, _) = close(wager, A, 3_600);
    assert!(wager.is_well_formed());
    let (wager, _) = close(created(u64::MAX, false, 0), A, 3_600);
    assert!(wager.is_well_formed());
}

#[test]
fn records_that_no_operation_leaves_are_not_well_formed() {
    let good = agreed(100, A);
    let spoiled: Vec<WagerAccount> = vec![
        WagerAccount { stake_lamports: 0, ..good.clone() },
        WagerAccount { match_id: 0, ..good.clone() },
        WagerAccount { lichess_game_id: "y".repeat(21), ..good.clone() },
        WagerAccount { vote_player_a: Some(id(C)), ..good.clone() },
        WagerAccount { vote_player_b: Some(id(B)), ..good.clone() },
        WagerAccount { vote_player_a: None, vote_player_b: None, ..good.clone() },
        WagerAccount { winner: Some(id(A)), ..good.clone() },
        WagerAccount { player_b: id(A), ..good.clone() },
        WagerAccount { stake_lamports: u64::MAX / 2 + 1, ..good.clone() },
        WagerAccount { status: WagerStatus::Voting, ..good.clone() },
        WagerAccount { status: WagerStatus::Disputed, ..good.clone() },
        WagerAccount { status: WagerStatus::Joined, ..good.clone() },
        WagerAccount { status: WagerStatus::Created, ..good.clone() },
        WagerAccount { status: WagerStatus::Resolved, ..good.clone() },
        WagerAccount { status: WagerStatus::Resolved, winner: Some(id(C)), ..good.clone() },
        WagerAccount {
            status: WagerStatus::Disputed,
            vote_player_b: Some(id(B)),
            requires_moderator: false,
            ..good.clone()
        },
        WagerAccount {
            status: WagerStatus::Voting,
            vote_player_b: Some(id(B)),
            requires_moderator: true,
            ..good.clone()
        },
    ];
    for (n, wager) in spoiled.iter().enumerate() {
        assert!(!wager.is_well_formed(), "case {}", n);
    }
    assert!(WagerAccount { status: WagerStatus::Voided, ..good.clone() }.is_well_formed());
    assert!(WagerAccount {
        status: WagerStatus::Voting,
        vote_player_b: Some(id(B)),
        ..good
    }
    .is_well_formed());
}

#[test]
fn status_is_final_only_when_resolved_or_voided() {
    let all = vec![
        (WagerStatus::Created, false),
        (WagerStatus::Joined, false),
        (WagerStatus::Voting, false),
        (WagerStatus::Retractable, false),
        (WagerStatus::Disputed, false),
        (WagerStatus::Resolved, true),
        (WagerStatus::Voided, true),
    ];
    for (status, expected) in all {
        assert_eq!(status.is_final(), expected);
    }
}
