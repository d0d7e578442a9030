use gamegambit::{
    ban_player, initialize_player, BanPlayer, ErrorCode, Identity, InitializePlayer, PlayerBanned,
    PlayerProfile, Rank,
};

fn key(n: u8) -> Identity {
    Identity::new([n; 32])
}

#[test]
fn blank_profile_is_all_zero() {
    let profile = PlayerProfile::default();
    assert!(profile.player.is_default());
    assert!(!profile.is_banned);
    assert_eq!(profile.xp, 0);
    assert_eq!(profile.rank, Rank::Bronze);
    assert_eq!(profile.matches_played, 0);
    assert_eq!(profile.achievements, 0);
    assert_eq!(profile.achievements_earned, 0);
}

#[test]
fn initialize_claims_a_blank_profile() {
    let mut blank = PlayerProfile::default();
    blank.is_banned = true;
    blank.ban_expires_at = 99;
    blank.xp = 5;
    let mut ctx = InitializePlayer { player_profile: blank, player: key(1) };
    initialize_player(&mut ctx, 1_000);
    assert_eq!(ctx.player_profile.player, key(1));
    assert!(!ctx.player_profile.is_banned);
    assert_eq!(ctx.player_profile.ban_expires_at, 0);
    assert_eq!(ctx.player_profile.last_active, 1_000);
    assert_eq!(ctx.player_profile.xp, 5);
    assert_eq!(ctx.player, key(1));
}

#[test]
fn initialize_keeps_an_existing_profile() {
    let mut profile = PlayerProfile::default();
    profile.player = key(1);
    profile.is_banned = true;
    profile.ban_expires_at = 5_000;
    profile.last_active = 10;
    let mut ctx = InitializePlayer { player_profile: profile, player: key(2) };
    initialize_player(&mut ctx, 1_000);
    assert_eq!(
        ctx.player_profile,
        PlayerProfile { last_active: 1_000, ..profile }
    );
}

#[test]
fn authority_bans_and_unbans() {
    let mut profile = PlayerProfile::default();
    profile.player = key(1);
    let mut ctx = BanPlayer { player_profile: profile, authorizer: key(9), authority: key(9) };
    assert_eq!(
        ban_player(&mut ctx, 600, 1_000),
        Ok(PlayerBanned { player: key(1), ban_expires_at: 1_600 })
    );
    assert!(ctx.player_profile.is_banned);
    assert_eq!(ctx.player_profile.ban_expires_at, 1_600);
    assert!(ctx.player_profile.is_banned_at(1_599));
    assert!(!ctx.player_profile.is_banned_at(1_600));

    assert_eq!(
        ban_player(&mut ctx, 0, 1_100),
        Ok(PlayerBanned { player: key(1), ban_expires_at: 0 })
    );
    assert!(!ctx.player_profile.is_banned);
    assert_eq!(ctx.player_profile.ban_expires_at, 0);
    assert!(!ctx.player_profile.is_banned_at(-5));
}

#[test]
fn ban_rejects_strangers_and_overflow() {
    let mut profile = PlayerProfile::default();
    profile.player = key(1);
    let mut ctx = BanPlayer { player_profile: profile, authorizer: key(1), authority: key(9) };
    assert_eq!(ban_player(&mut ctx, i64::MAX, 1), Err(ErrorCode::Unauthorized));
    assert_eq!(ctx.player_profile, profile);

    ctx.authorizer = key(9);
    assert_eq!(ban_player(&mut ctx, i64::MAX, 1), Err(ErrorCode::Overflow));
    assert_eq!(ban_player(&mut ctx, i64::MIN, -1), Err(ErrorCode::Overflow));
    assert_eq!(ctx.player_profile, profile);
    assert_eq!(
        ban_player(&mut ctx, i64::MAX, 0),
        Ok(PlayerBanned { player: key(1), ban_expires_at: i64::MAX })
    );
    // A ban that ended before it began is recorded but bans nobody.
    assert!(ban_player(&mut ctx, -10, 100).is_ok());
    assert!(ctx.player_profile.is_banned);
    assert_eq!(ctx.player_profile.ban_expires_at, 90);
    assert!(!ctx.player_profile.is_banned_at(100));
}
