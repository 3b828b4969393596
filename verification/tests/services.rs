use kindle_chess::bitboard::{Bitboards, Color, Piece};
use kindle_chess::game_stream::{is_terminal_status, plays_white, resolve_winner, snapshot, turn_after};
use kindle_chess::board_api::{PlayedBy, Player, Turn};
use kindle_chess::chess::{ChessApp, ChessBackend};
use kindle_chess::github::{
    check_release, check_release_for, checksum_verdict, latest_release_url, tag_text, parse_tag_version, release_update,
    user_agent, verify_download, Release, ReleaseAsset, SemVer, ASSET_NAME, SHA_NAME,
};
use kindle_chess::oauth::{callback_code, AuthConfig, LichessUser, TokenInfo};
use kindle_chess::puzzle::{Difficulty, Puzzle, PuzzleColor, PuzzleParams, PuzzlePhase};
use kindle_chess::puzzle_fetch::{
    next_query_pairs, played_in, FetchStage, FetchStep, PuzzleFetch, PuzzleReply, PuzzleRequest,
};

fn token() -> TokenInfo {
    TokenInfo {
        access_token: "lip_xyz".to_string(),
        token_type: "Bearer".to_string(),
        expires_in: None,
        scope: Some("board:play".to_string()),
    }
}

fn user() -> LichessUser {
    LichessUser {
        id: "bob".to_string(),
        username: "Bob".to_string(),
        perfs: Some(serde_json::Value::Bool(true)),
        created_at: Some(1),
        disabled: None,
        tos_violation: None,
        profile: None,
        seen_at: None,
        patron: Some(false),
        verified: None,
        play_time: None,
        title: Some("GM".to_string()),
    }
}

fn asset(name: &str, size: u64) -> ReleaseAsset {
    ReleaseAsset {
        name: name.to_string(),
        browser_download_url: format!("https://dl.invalid/{name}"),
        size,
    }
}

fn release(tag: &str, assets: Vec<ReleaseAsset>) -> Release {
    Release { tag_name: tag.to_string(), name: None, body: Some("notes".to_string()), assets }
}

#[test]
fn tag_versions() {
    let v = SemVer { major: 0, minor: 2, patch: 0, pre: String::new(), build: String::new() };
    assert_eq!(parse_tag_version("v0.2.0"), Some(v.clone()));
    assert_eq!(parse_tag_version("0.2.0"), Some(v.clone()));
    assert_eq!(parse_tag_version("release-0.2.0"), Some(v));
    assert_eq!(parse_tag_version("nightly"), None);
    assert_eq!(parse_tag_version(""), None);
    let rc = parse_tag_version("vv1.10.3-rc.1+build.7").unwrap();
    assert_eq!(
        rc,
        SemVer { major: 1, minor: 10, patch: 3, pre: "rc.1".to_string(), build: "build.7".to_string() }
    );
    assert_eq!(rc.display(), "1.10.3-rc.1+build.7");
    assert_eq!(parse_tag_version("release-2.0.0+x").unwrap().display(), "2.0.0+x");
}

#[test]
fn release_checks() {
    let bad = check_release(&release("latest", vec![]), "0.2.0");
    assert_eq!(bad.unwrap_err(), "unparseable release tag: latest");
    let same = check_release(&release("v0.2.0", vec![]), "0.2.0");
    assert!(matches!(same, Ok(None)));
    let older = check_release(&release("v0.1.9", vec![]), "0.2.0");
    assert!(matches!(older, Ok(None)));
    let missing = check_release(&release("v0.3.0", vec![asset(ASSET_NAME, 10)]), "0.2.0");
    assert_eq!(
        missing.unwrap_err(),
        "release v0.3.0 is missing assets — build may still be in progress"
    );
    let full = release("v0.3.0", vec![asset("other", 1), asset(SHA_NAME, 64), asset(ASSET_NAME, 2048)]);
    let info = check_release(&full, "0.2.0").unwrap().unwrap();
    assert_eq!(info.asset_size, 2048);
    assert_eq!(info.asset_url, format!("https://dl.invalid/{ASSET_NAME}"));
    assert_eq!(info.sha256_url, format!("https://dl.invalid/{SHA_NAME}"));
    assert_eq!(info.release_name, "v0.3.0");
    assert_eq!(info.release_notes, "notes");
    assert_eq!(info.latest, "0.3.0");
    assert_eq!(info.current, "0.2.0");
    // The versions are reported as semver prints them, build metadata kept.
    let info = check_release(&release("v1.0.0+7", vec![asset(SHA_NAME, 64), asset(ASSET_NAME, 2048)]), "0.2.0-rc.1").unwrap().unwrap();
    assert_eq!(info.latest, "1.0.0+7");
    assert_eq!(info.current, "0.2.0-rc.1");
    let not_newer = release_update(&full, "0.2.0".to_string(), "0.2.0".to_string(), false);
    assert!(matches!(not_newer, Ok(None)));
    let newer = release_update(&full, "0.2.0".to_string(), "0.3.0".to_string(), true).unwrap().unwrap();
    assert_eq!((newer.current.as_str(), newer.latest.as_str()), ("0.2.0", "0.3.0"));
    // A pre-release of the running version is older than it.
    assert!(matches!(check_release(&release("v0.2.0-rc.1", vec![]), "0.2.0"), Ok(None)));
    assert!(check_release_for(&full, "not a version").is_none());
    assert!(matches!(check_release_for(&full, "0.2.0"), Some(Ok(Some(_)))));
    assert!(matches!(check_release_for(&full, "0.3.0"), Some(Ok(None))));
    assert_eq!(tag_text("release-1.0.0"), "1.0.0");
}

#[test]
fn github_request_text() {
    assert_eq!(
        latest_release_url(),
        "https://api.github.com/repos/mxyyz/kindle-chess/releases/latest"
    );
    assert_eq!(user_agent("0.2.0"), "kindle-hello/0.2.0");
}

#[test]
fn auth_config_defaults() {
    let c = AuthConfig::default();
    assert!(c.client_id.starts_with("lichess-rust-client-"));
    let id = &c.client_id["lichess-rust-client-".len()..];
    assert!(uuid::Uuid::parse_str(id).is_ok());
    assert_eq!(id, id.to_lowercase());
    assert_eq!(c.redirect_port, 8080);
    assert_eq!(
        c.scopes,
        vec!["challenge:read", "challenge:write", "bot:play", "board:play", "puzzle:read"]
    );
    // Two configs get different client ids.
    assert_ne!(AuthConfig::default().client_id, c.client_id);
}

#[test]
fn token_copies() {
    let t = token();
    assert_eq!(t.to_oauth2_token().secret(), "lip_xyz");
    let d = t.duplicate();
    assert_eq!(d.access_token, t.access_token);
    assert_eq!(d.scope, t.scope);
    let u = user().duplicate();
    assert_eq!(u.username, "Bob");
    assert_eq!(u.perfs, Some(serde_json::Value::Bool(true)));
    assert_eq!(u.title.as_deref(), Some("GM"));
}

#[test]
fn chess_app_backends() {
    let offline = ChessApp::new_offline();
    assert!(offline.token().is_none());
    assert!(offline.online_idle_api().is_none());
    assert!(offline.turn().is_none());
    let offline = offline.attach_game("x".to_string(), true);
    assert!(matches!(offline.backend, ChessBackend::Offline(_)));

    let idle = ChessApp::new_online(token(), user());
    assert_eq!(idle.token().map(|t| t.access_token), Some("lip_xyz".to_string()));
    assert!(idle.online_idle_api().is_some());
    assert!(idle.online_in_game_api().is_none());
    let mut game = idle.attach_game("g9".to_string(), false);
    assert!(matches!(game.turn(), Some(Turn::Waiting)));
    let api = game.online_in_game_api().unwrap();
    assert_eq!(api.state.game_id, "g9");
    assert_eq!(api.state.board.side_to_move, Color::White);
    let white = PlayedBy::User(Player { id: "bob".into(), name: "Bob".into(), title: None, rating: None });
    let black = PlayedBy::User(Player { id: "eve".into(), name: "Eve".into(), title: None, rating: None });
    game.apply_game_full(white, black, true, Turn::Playing);
    assert!(matches!(game.turn(), Some(Turn::Playing)));
    game.apply_turn(Turn::Over { winner: None });
    assert!(matches!(game.turn(), Some(Turn::Over { winner: None })));
    let copy = game.duplicate();
    match copy.backend {
        ChessBackend::OnlineInGame(api) => {
            assert!(api.state.player0_white);
            assert!(matches!(api.state.white, Some(PlayedBy::User(ref p)) if p.name == "Bob"));
        }
        _ => panic!("in-game copy expected"),
    }
}

fn daily() -> Puzzle {
    Puzzle {
        id: "daily1".to_string(),
        rating: 1500,
        plays: 1,
        solution: vec!["e2e4".to_string()],
        themes: vec![],
        initial_ply: 1,
        fen: Some("8/8/8/8/8/8/4P3/k6K w - - 0 1".to_string()),
        last_move: None,
    }
}

#[test]
fn next_puzzle_query() {
    let q = next_query_pairs(PuzzleParams::default());
    assert_eq!(q, vec![("difficulty".to_string(), "normal".to_string())]);
    let q = next_query_pairs(PuzzleParams {
        difficulty: Difficulty::Easiest,
        phase: PuzzlePhase::RookEndgame,
        color: PuzzleColor::Black,
    });
    assert_eq!(
        q,
        vec![
            ("difficulty".to_string(), "easiest".to_string()),
            ("angle".to_string(), "rookEndgame".to_string()),
            ("color".to_string(), "black".to_string()),
        ]
    );
}

#[test]
fn played_daily_lookup() {
    let ids = vec!["a".to_string(), "daily1".to_string()];
    assert!(played_in(&ids, "daily1"));
    assert!(!played_in(&ids, "daily2"));
    assert!(!played_in(&vec![], "daily1"));
}

#[test]
fn home_puzzle_without_token_is_the_daily() {
    let (mut f, step) = PuzzleFetch::home(None, PuzzleParams::default());
    assert!(matches!(step, FetchStep::Request(PuzzleRequest::Daily)));
    let step = f.advance(PuzzleReply::Daily(Ok(daily())));
    assert!(matches!(step, FetchStep::Done(Ok(ref p)) if p.id == "daily1"));
    assert_eq!(f.stage, FetchStage::Finished);
}

#[test]
fn home_puzzle_played_daily_fetches_a_fresh_one() {
    let (mut f, _) = PuzzleFetch::home(Some(token()), PuzzleParams::default());
    let step = f.advance(PuzzleReply::Daily(Ok(daily())));
    assert!(matches!(step, FetchStep::Request(PuzzleRequest::Activity(_, ref id)) if id == "daily1"));
    let step = f.advance(PuzzleReply::Activity(Ok(true)));
    assert!(matches!(step, FetchStep::Request(PuzzleRequest::NextId(Some(_), _))));
    // The authenticated request fails: retried anonymously.
    let step = f.advance(PuzzleReply::NextId(Err("403".to_string())));
    assert!(matches!(step, FetchStep::Request(PuzzleRequest::NextId(None, _))));
    let step = f.advance(PuzzleReply::NextId(Ok("fresh".to_string())));
    assert!(matches!(step, FetchStep::Request(PuzzleRequest::ById(ref id)) if id == "fresh"));
    let mut fresh = daily();
    fresh.id = "fresh".to_string();
    let step = f.advance(PuzzleReply::ById(Ok(fresh)));
    assert!(matches!(step, FetchStep::Done(Ok(ref p)) if p.id == "fresh"));
}

#[test]
fn home_puzzle_failed_check_keeps_the_daily() {
    let (mut f, _) = PuzzleFetch::home(Some(token()), PuzzleParams::default());
    f.advance(PuzzleReply::Daily(Ok(daily())));
    let step = f.advance(PuzzleReply::Activity(Err("missing scope".to_string())));
    assert!(matches!(step, FetchStep::Done(Ok(ref p)) if p.id == "daily1"));
    let (mut g, _) = PuzzleFetch::home(Some(token()), PuzzleParams::default());
    g.advance(PuzzleReply::Daily(Ok(daily())));
    let step = g.advance(PuzzleReply::Activity(Ok(false)));
    assert!(matches!(step, FetchStep::Done(Ok(ref p)) if p.id == "daily1"));
    let (mut h, _) = PuzzleFetch::home(None, PuzzleParams::default());
    let step = h.advance(PuzzleReply::Daily(Err("offline".to_string())));
    assert!(matches!(step, FetchStep::Done(Err(ref e)) if e == "offline"));
}

#[test]
fn anonymous_next_puzzle_failure_fails() {
    let (mut f, step) = PuzzleFetch::next(None, PuzzleParams::default());
    assert!(matches!(step, FetchStep::Request(PuzzleRequest::NextId(None, _))));
    let step = f.advance(PuzzleReply::NextId(Err("500".to_string())));
    assert!(matches!(step, FetchStep::Done(Err(ref e)) if e == "500"));
    let (mut g, step) = PuzzleFetch::next(Some(token()), PuzzleParams::default());
    assert!(matches!(step, FetchStep::Request(PuzzleRequest::NextId(Some(_), _))));
    g.advance(PuzzleReply::NextId(Ok("p1".to_string())));
    let step = g.advance(PuzzleReply::ById(Err("404".to_string())));
    assert!(matches!(step, FetchStep::Done(Err(ref e)) if e == "404"));
}

#[test]
fn stream_snapshot_rebuilds_position_and_last_move() {
    let start = Bitboards::starting_position();
    let (board, mask) = snapshot(&start, "");
    assert_eq!(mask, 0);
    assert_eq!(board.piece_at(12), Some((Color::White, Piece::Pawn)));
    let (board, mask) = snapshot(&start, "e2e4 e7e5 g1f3");
    assert_eq!(board.side_to_move, Color::Black);
    assert_eq!(board.piece_at(21), Some((Color::White, Piece::Knight)));
    assert_eq!(mask, (1u64 << 6) | (1u64 << 21));
    // Castling marks the rook's squares as well.
    let (_, mask) = snapshot(&start, "e2e4 e7e5 g1f3 b8c6 f1c4 g8f6 e1g1");
    assert_eq!(mask, (1u64 << 4) | (1u64 << 5) | (1u64 << 6) | (1u64 << 7));
}

#[test]
fn stream_status_winner_and_turn() {
    assert!(!is_terminal_status("started"));
    assert!(!is_terminal_status("created"));
    assert!(is_terminal_status("mate"));
    assert!(is_terminal_status("resign"));
    let white = PlayedBy::User(Player { id: "bob".into(), name: "Bob".into(), title: None, rating: None });
    let black = PlayedBy::Ai(kindle_chess::board_api::Computer { ai_level: Some(2) });
    assert!(plays_white(&white, "bob"));
    assert!(!plays_white(&white, "eve"));
    assert!(!plays_white(&black, "bob"));
    let w = Some(white.duplicate());
    let b = Some(black.duplicate());
    assert_eq!(resolve_winner(&Some("white".to_string()), &w, &b).as_deref(), Some("Bob"));
    assert_eq!(resolve_winner(&Some("black".to_string()), &w, &b).as_deref(), Some("AI"));
    assert_eq!(resolve_winner(&None, &w, &b), None);
    assert_eq!(resolve_winner(&Some("white".to_string()), &None, &b), None);
    let start = Bitboards::starting_position();
    assert!(matches!(turn_after("started", None, &start, true), Turn::Playing));
    assert!(matches!(turn_after("started", None, &start, false), Turn::Waiting));
    assert!(matches!(
        turn_after("mate", Some("Bob".to_string()), &start, false),
        Turn::Over { winner: Some(ref n) } if n == "Bob"
    ));
}

const ABC_SHA256: &str = "ba7816bf8f01cfea414140de5dae2223b00361a396177a9cb410ff61f20015ad";

#[test]
fn download_checksums() {
    let data = b"abc".to_vec();
    // The first word of the checksum file, in any case, is the digest.
    let sums = format!("{}  kindle-chess-armv7-musl\n", ABC_SHA256.to_uppercase());
    assert_eq!(verify_download(&sums, &data), Ok(()));
    assert_eq!(verify_download(&format!("\n\t{ABC_SHA256}"), &data), Ok(()));
    assert_eq!(verify_download("  \n", &data), Err("empty checksum file".to_string()));
    let other = verify_download(&sums, &b"abd".to_vec()).unwrap_err();
    assert!(other.starts_with(&format!("checksum mismatch: expected {ABC_SHA256}, got ")));
    assert_ne!(other, format!("checksum mismatch: expected {ABC_SHA256}, got {ABC_SHA256}"));
    assert_eq!(checksum_verdict("AB12 x", "ab12"), Ok(()));
    assert_eq!(
        checksum_verdict("ab12", "ab13"),
        Err("checksum mismatch: expected ab12, got ab13".to_string())
    );
}

fn pairs(list: &[(&str, &str)]) -> Vec<(String, String)> {
    list.iter().map(|(k, v)| (k.to_string(), v.to_string())).collect()
}

#[test]
fn oauth_callback_outcomes() {
    assert_eq!(callback_code(&pairs(&[("code", "c1"), ("state", "s")]), "s"), Ok("c1".to_string()));
    // The last value of a repeated parameter counts.
    assert_eq!(
        callback_code(&pairs(&[("code", "c1"), ("state", "x"), ("code", "c2"), ("state", "s")]), "s"),
        Ok("c2".to_string())
    );
    assert_eq!(
        callback_code(&pairs(&[("error", "access_denied"), ("state", "s")]), "s"),
        Err("authorisation refused: access_denied".to_string())
    );
    assert_eq!(
        callback_code(&pairs(&[("code", "c1"), ("state", "t")]), "s"),
        Err("authorisation state mismatch".to_string())
    );
    assert_eq!(
        callback_code(&pairs(&[("code", "c1")]), "s"),
        Err("authorisation state mismatch".to_string())
    );
    assert_eq!(
        callback_code(&pairs(&[("state", "s"), ("other", "1")]), "s"),
        Err("authorisation code missing".to_string())
    );
}
