use kindle_chess::bitboard::{Bitboards, Color, Piece};
use kindle_chess::board_api::{Computer, GameData, GameDataList, Player, PlayedBy, Turn};
use kindle_chess::chess::{ChessApp, ChessBackend};
use kindle_chess::events::{AppEvent, ChessMove, GrayImage, Square, TouchEvent, TouchKind};
use kindle_chess::game_screens::{ChessGameScreen, OngoingChessGamesScreen};
use kindle_chess::github::UpdateInfo;
use kindle_chess::menus::{
    ChessAuthScreen, GameActionsScreen, HomeScreen, PuzzleSettingsScreen, SettingsScreen,
    UpdateScreen, UpdateState,
};
use kindle_chess::oauth::{LichessUser, TokenInfo};
use kindle_chess::puzzle::{Difficulty, Puzzle, PuzzleColor, PuzzleParams, PuzzlePhase};
use kindle_chess::puzzle_screen::{square_from_uci, PuzzleScreen};
use kindle_chess::screens::{Effect, Reaction, Screen, Transition};
use kindle_chess::sidebar::StatusIcon;
use kindle_chess::widgets::Button;

fn token() -> TokenInfo {
    TokenInfo {
        access_token: "lip_abc".to_string(),
        token_type: "Bearer".to_string(),
        expires_in: Some(3600),
        scope: None,
    }
}

fn user() -> LichessUser {
    LichessUser {
        id: "alice".to_string(),
        username: "Alice".to_string(),
        perfs: None,
        created_at: None,
        disabled: None,
        tos_violation: None,
        profile: None,
        seen_at: None,
        patron: None,
        verified: None,
        play_time: None,
        title: None,
    }
}

fn idle_app() -> ChessApp {
    ChessApp::new_online(token(), user())
}

fn game_app() -> ChessApp {
    idle_app().attach_game("g1".to_string(), true)
}

fn up_on(b: &Button) -> AppEvent {
    AppEvent::Touch(TouchEvent { x: b.rect.x + 2, y: b.rect.y + 2, kind: TouchKind::Up })
}

fn is_stay(r: &Reaction) -> bool {
    matches!(r.transition, Transition::Stay) && r.effect.is_none()
}

fn is_redraw(r: &Reaction) -> bool {
    matches!(r.transition, Transition::Redraw)
}

#[test]
fn home_layout_and_gated_buttons() {
    let mut home = HomeScreen::new();
    assert_eq!(home.chess_button.label, "Demo");
    assert_eq!((home.chess_button.rect.x, home.chess_button.rect.y), (236, 852));
    assert_eq!(home.settings_button.rect.y, 1224);
    // Chess needs the signed-in app; a miss changes nothing.
    let chess = up_on(&home.chess_button);
    assert!(is_stay(&home.handle_event(chess.clone())));
    let miss = AppEvent::Touch(TouchEvent { x: 5, y: 5, kind: TouchKind::Up });
    assert!(is_stay(&home.handle_event(miss)));
    // Settings and puzzle always work.
    let r = home.handle_event(up_on(&home.settings_button));
    assert!(matches!(r.transition, Transition::Push(Screen::Settings(_))));
    let r = home.handle_event(up_on(&home.puzzle_button));
    match r.transition {
        Transition::Push(Screen::Puzzle(p)) => assert!(p.token.is_none()),
        _ => panic!("puzzle screen expected"),
    }
    // Once signed in, chess opens a game screen and the puzzle gets the token.
    assert!(is_redraw(&home.handle_event(AppEvent::ChessReady(idle_app()))));
    let r = home.handle_event(chess);
    assert!(matches!(r.transition, Transition::Push(Screen::ChessGame(_))));
    let r = home.handle_event(up_on(&home.puzzle_button));
    match r.transition {
        Transition::Push(Screen::Puzzle(p)) => {
            assert_eq!(p.token.map(|t| t.access_token), Some("lip_abc".to_string()))
        }
        _ => panic!("puzzle screen expected"),
    }
    let r = home.handle_event(AppEvent::AuthFailed("no token".to_string()));
    assert!(matches!(r.transition, Transition::Push(Screen::ChessAuth(_))));
    assert!(matches!(home.handle_event(AppEvent::Quit).transition, Transition::Quit));
}

#[test]
fn home_starts_the_token_check_once() {
    let mut s = Screen::Home(HomeScreen::new());
    assert!(matches!(s.start(), Some(Effect::CheckCachedToken)));
    assert!(s.start().is_none());
}

#[test]
fn sign_in_screen_flow() {
    let mut auth = ChessAuthScreen::new();
    assert_eq!((auth.qr_code.x, auth.qr_code.y, auth.qr_code.width), (286, 400, 500));
    assert!(matches!(auth.start(), Some(Effect::Authenticate)));
    assert!(auth.start().is_none());
    let img = GrayImage { width: 2, height: 1, pixels: vec![0, 255] };
    assert!(is_redraw(&auth.handle_event(AppEvent::QrReady(img))));
    assert_eq!(auth.qr_image.as_ref().map(|i| i.width), Some(2));
    let r = auth.handle_event(AppEvent::AuthSuccess(token(), user()));
    assert!(matches!(r.transition, Transition::Stay));
    let app = match r.effect {
        Some(Effect::Post(AppEvent::ChessReady(app))) => app,
        _ => panic!("ready app expected"),
    };
    assert_eq!(app.token().map(|t| t.access_token), Some("lip_abc".to_string()));
    let r = auth.handle_event(AppEvent::ChessReady(app));
    assert!(matches!(r.transition, Transition::Pop));
    assert!(matches!(r.effect, Some(Effect::Post(AppEvent::ChessReady(_)))));
    assert!(is_stay(&auth.handle_event(AppEvent::AuthFailed("denied".to_string()))));
    assert!(is_stay(&auth.handle_event(AppEvent::Quit)));
}

#[test]
fn settings_screen_opens_the_updater() {
    let mut s = SettingsScreen::new();
    assert_eq!(s.check_update_button.label, "Check for updates");
    assert_eq!((s.back_button.rect.y, s.back_button.rect.height), (1316, 100));
    let r = s.handle_event(up_on(&s.check_update_button));
    match r.transition {
        Transition::Push(Screen::Update(u)) => assert!(matches!(u.state, UpdateState::Checking)),
        _ => panic!("updater expected"),
    }
    assert!(matches!(s.handle_event(up_on(&s.back_button)).transition, Transition::Pop));
    assert!(is_redraw(&s.handle_event(AppEvent::Expose)));
    let lines = SettingsScreen::info_lines("0.3.1", "abc123", "2024-01-01T00:00:00Z");
    assert_eq!(lines[0], "Version:  0.3.1");
    assert_eq!(lines[1], "Commit:   abc123");
    assert_eq!(lines[2], "Built:    2024-01-01T00:00:00Z");
}

fn update_info() -> UpdateInfo {
    UpdateInfo {
        current: "0.2.0".to_string(),
        latest: "0.3.0".to_string(),
        release_name: "v0.3.0".to_string(),
        release_notes: String::new(),
        asset_url: "https://example.invalid/bin".to_string(),
        sha256_url: "https://example.invalid/bin.sha256".to_string(),
        asset_size: 4096,
    }
}

#[test]
fn updater_state_machine() {
    let mut u = UpdateScreen::new();
    assert!(matches!(u.start(), Some(Effect::CheckForUpdate)));
    assert!(u.start().is_none());
    assert_eq!(u.body_lines("0.2.0"), vec!["Checking for updates…".to_string()]);
    assert!(!u.action_visible());
    // The action button does nothing while checking.
    assert!(is_stay(&u.handle_event(up_on(&u.action_button))));
    assert!(is_redraw(&u.handle_event(AppEvent::UpdateAvailable(update_info()))));
    assert!(u.action_visible());
    assert_eq!(
        u.body_lines("0.2.0"),
        vec![
            "Update available: v0.2.0 → v0.3.0".to_string(),
            "(4096 bytes)".to_string(),
            String::new(),
            "v0.3.0".to_string(),
        ]
    );
    u.label_action();
    assert_eq!(u.action_button.label, "Apply");
    let r = u.handle_event(up_on(&u.action_button));
    assert!(is_redraw(&r));
    assert!(matches!(r.effect, Some(Effect::ApplyUpdate(ref i)) if i.asset_size == 4096));
    assert!(matches!(u.state, UpdateState::Downloading));
    assert!(is_redraw(&u.handle_event(AppEvent::UpdateApplied)));
    u.label_action();
    assert_eq!(u.action_button.label, "Quit");
    assert!(matches!(u.handle_event(up_on(&u.action_button)).transition, Transition::Quit));
    u.handle_event(AppEvent::UpdateApplyFailed("disk full".to_string()));
    assert_eq!(
        u.body_lines("0.2.0"),
        vec!["Update failed:".to_string(), "Apply failed: disk full".to_string()]
    );
    u.handle_event(AppEvent::UpdateUpToDate);
    assert_eq!(u.body_lines("0.2.0"), vec!["You're up to date — v0.2.0".to_string()]);
    u.handle_event(AppEvent::UpdateCheckFailed("offline".to_string()));
    assert!(matches!(u.state, UpdateState::Failed(ref m) if m == "Check failed: offline"));
}

#[test]
fn puzzle_settings_cycle_and_fetch() {
    let mut s = PuzzleSettingsScreen::new(PuzzleParams::default());
    assert_eq!(s.difficulty_button.label, "Difficulty: Normal");
    assert_eq!(s.phase_button.label, "Phase: Any");
    assert_eq!(s.color_button.label, "Color: Random");
    assert_eq!((s.fetch_button.rect.y, s.back_button.rect.y), (782, 1298));
    assert!(is_redraw(&s.handle_event(up_on(&s.difficulty_button))));
    assert_eq!(s.params.difficulty, Difficulty::Harder);
    assert_eq!(s.difficulty_button.label, "Difficulty: Harder");
    s.handle_event(up_on(&s.phase_button));
    assert_eq!(s.params.phase, PuzzlePhase::Opening);
    s.handle_event(up_on(&s.color_button));
    assert_eq!(s.params.color, PuzzleColor::White);
    assert_eq!(s.color_button.label, "Color: White");
    let r = s.handle_event(up_on(&s.fetch_button));
    assert!(matches!(r.transition, Transition::Pop));
    match r.effect {
        Some(Effect::Post(AppEvent::ApplyPuzzleParams(p))) => assert_eq!(p, s.params),
        _ => panic!("parameters expected"),
    }
}

#[test]
fn game_actions_need_a_game() {
    let mut g = GameActionsScreen::new(game_app());
    assert_eq!(g.resign_button.label, "Resign");
    assert_eq!((g.resign_button.rect.y, g.abort_button.rect.y), (594, 734));
    let r = g.handle_event(up_on(&g.resign_button));
    assert!(matches!(r.transition, Transition::Pop));
    assert!(matches!(r.effect, Some(Effect::Resign(ref api)) if api.state.game_id == "g1"));
    let r = g.handle_event(up_on(&g.abort_button));
    assert!(matches!(r.effect, Some(Effect::Abort(_))));
    let mut offline = GameActionsScreen::new(ChessApp::new_offline());
    let r = offline.handle_event(up_on(&offline.resign_button));
    assert!(matches!(r.transition, Transition::Pop));
    assert!(r.effect.is_none());
}

fn game(id: &str, name: &str, my_turn: bool) -> GameData {
    GameData {
        game_id: id.to_string(),
        fen: String::new(),
        color: "white".to_string(),
        opponent: PlayedBy::User(Player {
            id: name.to_lowercase(),
            name: name.to_string(),
            title: None,
            rating: Some(1500),
        }),
        is_my_turn: my_turn,
    }
}

#[test]
fn ongoing_games_pages_and_slots() {
    let mut s = OngoingChessGamesScreen::new(idle_app());
    assert_eq!(s.chessgame_button_0.label, "-");
    assert_eq!((s.chessgame_button_3.rect.x, s.chessgame_button_3.rect.y), (544, 794));
    assert!(matches!(s.start(), Some(Effect::FetchOngoingGames(_))));
    assert!(s.loading);
    assert!(s.start().is_none());
    let mut games: Vec<GameData> = (0..5).map(|i| game(&format!("g{i}"), &format!("P{i}"), i == 1)).collect();
    games.push(GameData {
        game_id: "ai".to_string(),
        fen: String::new(),
        color: "black".to_string(),
        opponent: PlayedBy::Ai(Computer { ai_level: Some(3) }),
        is_my_turn: false,
    });
    let r = s.handle_event(AppEvent::OngoingGamesLoaded(GameDataList { now_playing: games }));
    assert!(is_redraw(&r));
    assert!(!s.loading);
    assert_eq!(s.page_count(), 2);
    assert_eq!(s.chessgame_button_0.label, "VS P0");
    assert_eq!(s.chessgame_button_1.label, "> VS P1 <");
    let next = AppEvent::Touch(TouchEvent {
        x: s.next_page_button.rect.x + 1,
        y: s.next_page_button.rect.y + 1,
        kind: TouchKind::Up,
    });
    assert!(is_redraw(&s.handle_event(next.clone())));
    assert_eq!(s.page_index, 1);
    assert_eq!(s.chessgame_button_0.label, "VS P4");
    assert_eq!(s.chessgame_button_1.label, "VS AI lvl 3");
    assert_eq!(s.chessgame_button_2.label, "-");
    // No page past the last.
    assert!(is_stay(&s.handle_event(next)));
    // An empty slot is inert; a game slot opens the game.
    assert!(is_stay(&s.handle_event(up_on(&s.chessgame_button_2))));
    assert!(s.game_at_slot(2).is_none());
    let r = s.handle_event(up_on(&s.chessgame_button_0));
    match r.transition {
        Transition::Push(Screen::ChessGame(g)) => match g.app.backend {
            ChessBackend::OnlineInGame(api) => {
                assert_eq!(api.state.game_id, "g4");
                assert!(matches!(api.state.turn, Turn::Waiting));
            }
            _ => panic!("game backend expected"),
        },
        _ => panic!("game screen expected"),
    }
    let mut screen = Screen::OngoingGames(s);
    screen.on_reveal();
    match screen {
        Screen::OngoingGames(s) => assert!(s.games.is_none() && s.error.is_none()),
        _ => unreachable!(),
    }
}

#[test]
fn ongoing_games_offline_error() {
    let mut s = OngoingChessGamesScreen::new(ChessApp::new_offline());
    assert!(s.start().is_none());
    assert_eq!(s.error.as_deref(), Some("Offline backend has no ongoing games"));
    let r = s.handle_event(AppEvent::OngoingGamesFailed("boom".to_string()));
    assert!(is_redraw(&r));
    assert_eq!(s.error.as_deref(), Some("boom"));
}

#[test]
fn chess_game_screen_follows_the_stream() {
    let mut s = ChessGameScreen::new(game_app());
    assert_eq!(s.sidebar.turn_status, "Your turn");
    assert!(matches!(s.start(), Some(Effect::StreamGame(_))));
    assert!(s.start().is_none());
    let black = PlayedBy::User(Player {
        id: "bob".to_string(),
        name: "Bob".to_string(),
        title: None,
        rating: None,
    });
    let white = PlayedBy::Ai(Computer { ai_level: None });
    let ev = AppEvent::GameFullReceived {
        white,
        black,
        player0_white: false,
        turn: Turn::Waiting,
        board: Bitboards::starting_position(),
        last_move: 0,
    };
    assert!(is_redraw(&s.handle_event(ev)));
    // The local player is Black: the opponent is White (the AI), and the
    // board is flipped.
    assert_eq!(s.sidebar.opponent, "AI");
    assert!(s.board.flipped);
    assert_eq!(s.sidebar.turn_status, "Waiting for opponent");
    assert!(matches!(s.app.turn(), Some(Turn::Waiting)));
    let mv = ChessMove { from: Square::new(4, 6), to: Square::new(4, 4) };
    let r = s.handle_event(AppEvent::MoveMade(mv));
    match r.effect {
        Some(Effect::SubmitMove(api, uci)) => {
            assert_eq!(uci, "e7e5");
            assert_eq!(api.state.game_id, "g1");
        }
        _ => panic!("move submission expected"),
    }
    s.handle_event(AppEvent::MoveRejected);
    assert!(s.sidebar.rejected);
    let mut after = Bitboards::starting_position();
    after.apply_uci_move("e2e4").unwrap();
    s.handle_event(AppEvent::TurnChanged { turn: Turn::Playing, board: after, last_move: 1 << 12 });
    assert!(!s.sidebar.rejected);
    assert_eq!(s.sidebar.turn_status, "Your turn");
    assert_eq!(s.board.last_move_squares, 1 << 12);
    let r = s.handle_event(AppEvent::OpenGameActions);
    assert!(matches!(r.transition, Transition::Push(Screen::GameActions(_))));
    assert!(matches!(s.handle_event(AppEvent::ExitToMenu).transition, Transition::Pop));
    s.board.force_full_repaint = false;
    s.handle_event(AppEvent::Expose);
    assert!(s.board.force_full_repaint && s.sidebar.needs_full_repaint);
}

#[test]
fn chess_game_screen_touch_moves() {
    let mut s = ChessGameScreen::new(game_app());
    s.handle_event(AppEvent::TurnChanged {
        turn: Turn::Playing,
        board: Bitboards::starting_position(),
        last_move: 0,
    });
    let tap = |x: i16, y: i16| AppEvent::Touch(TouchEvent { x, y, kind: TouchKind::Down });
    let r = s.handle_event(tap(600, 850));
    assert!(is_redraw(&r) && r.effect.is_none());
    let r = s.handle_event(tap(600, 600));
    assert!(matches!(r.effect, Some(Effect::SubmitMove(_, ref u)) if u == "e2e4"));
    // The sidebar's back button leaves the game.
    let back = s.sidebar.back_button.rect;
    let r = s.handle_event(AppEvent::Touch(TouchEvent { x: back.x + 3, y: back.y + 3, kind: TouchKind::Up }));
    assert!(matches!(r.transition, Transition::Pop));
}

const FEN: &str = "4k2r/4bppp/1qpB4/1p2p3/4Q1n1/5N2/PPP2PPP/R2R2K1 b k - 0 1";

fn puzzle_of(fen: Option<&str>) -> Puzzle {
    Puzzle {
        id: "abc".to_string(),
        rating: 1650,
        plays: 10,
        solution: ["g4f2", "e4d4", "e5d4"].iter().map(|s| s.to_string()).collect(),
        themes: vec!["fork".to_string(), "short".to_string()],
        initial_ply: 30,
        fen: fen.map(|f| f.to_string()),
        last_move: Some("d3e4".to_string()),
    }
}

#[test]
fn puzzle_screen_plays_a_puzzle() {
    let mut s = PuzzleScreen::new(Some(token()));
    assert!(matches!(s.start(), Some(Effect::FetchHomePuzzle(Some(_), p)) if p == PuzzleParams::default()));
    assert!(s.start().is_none());
    assert!(is_redraw(&s.handle_event(AppEvent::PuzzleLoaded(puzzle_of(Some(FEN))))));
    // The solver plays Black: the board is flipped.
    assert!(s.board.flipped);
    assert_eq!(s.sidebar.status_text, "Find the best move");
    assert_eq!(s.sidebar.rating, Some(1650));
    assert_eq!(s.sidebar.themes, "fork · short");
    // The hint marks g4.
    s.handle_event(AppEvent::ShowPuzzleHint);
    assert_eq!(s.board.selected_square, Some(Square::new(6, 3)));
    // A wrong move.
    let r = s.handle_event(AppEvent::MoveMade(ChessMove { from: Square::new(1, 5), to: Square::new(1, 4) }));
    assert!(is_redraw(&r) && r.effect.is_none());
    assert_eq!(s.sidebar.status_text, "Try something else");
    assert_eq!(s.sidebar.status_icon, StatusIcon::Cross);
    // The right one: the reply is scheduled.
    let r = s.handle_event(AppEvent::MoveMade(ChessMove { from: Square::new(6, 3), to: Square::new(5, 1) }));
    assert!(matches!(r.effect, Some(Effect::PuzzleReplyLater)));
    assert_eq!(s.sidebar.status_text, "Correct move");
    assert_eq!(s.board.position.unwrap().piece_at(13), Some((Color::Black, Piece::Knight)));
    assert!(is_redraw(&s.handle_event(AppEvent::PuzzleOpponentMove)));
    assert_eq!(s.sidebar.status_text, "Find the best move");
    // A second reply is not pending.
    assert!(is_stay(&s.handle_event(AppEvent::PuzzleOpponentMove)));
    let r = s.handle_event(AppEvent::MoveMade(ChessMove { from: Square::new(4, 4), to: Square::new(3, 3) }));
    assert!(r.effect.is_none());
    assert_eq!(s.sidebar.status_text, "Finished Puzzle");
}

#[test]
fn puzzle_screen_loading_paths() {
    let mut s = PuzzleScreen::new(None);
    s.handle_event(AppEvent::PuzzleLoaded(puzzle_of(None)));
    assert_eq!(s.sidebar.status_text, "Could not load puzzle");
    assert!(s.session.is_none());
    s.handle_event(AppEvent::PuzzleLoadFailed("timeout".to_string()));
    assert_eq!(s.sidebar.status_text, "Could not load puzzle");
    let r = s.handle_event(AppEvent::NextPuzzle);
    assert!(matches!(r.effect, Some(Effect::FetchNextPuzzle(None, _))));
    assert_eq!(s.sidebar.status_text, "Loading…");
    let params = PuzzleParams { difficulty: Difficulty::Hardest, phase: PuzzlePhase::Endgame, color: PuzzleColor::Black };
    let r = s.handle_event(AppEvent::ApplyPuzzleParams(params));
    assert!(matches!(r.effect, Some(Effect::FetchNextPuzzle(None, p)) if p == params));
    assert_eq!(s.params, params);
    let r = s.handle_event(AppEvent::OpenPuzzleSettings);
    match r.transition {
        Transition::Push(Screen::PuzzleSettings(ps)) => assert_eq!(ps.params, params),
        _ => panic!("settings expected"),
    }
    // Moves before a puzzle has loaded are ignored.
    let r = s.handle_event(AppEvent::MoveMade(ChessMove { from: Square::new(0, 0), to: Square::new(0, 1) }));
    assert!(is_redraw(&r) && r.effect.is_none());
    let mut screen = Screen::Puzzle(s);
    screen.on_reveal();
    match screen {
        Screen::Puzzle(s) => assert!(s.board.force_full_repaint && s.sidebar.needs_full_repaint),
        _ => unreachable!(),
    }
}

#[test]
fn square_from_uci_reads_the_from_square() {
    assert_eq!(square_from_uci("e2e4"), Some(Square::new(4, 1)));
    assert_eq!(square_from_uci("h8"), Some(Square::new(7, 7)));
    assert_eq!(square_from_uci("i2e4"), None);
    assert_eq!(square_from_uci("e9"), None);
    assert_eq!(square_from_uci("e"), None);
    assert_eq!(square_from_uci(""), None);
}

#[test]
fn square_names_give_their_square_back() {
    for file in 0..8u8 {
        for rank in 0..8u8 {
            let sq = Square::new(file, rank);
            assert_eq!(square_from_uci(&sq.to_algebraic()), Some(sq));
        }
    }
    assert_eq!(Square::new(4, 1).to_algebraic(), "e2");
}

#[test]
fn puzzle_screen_takes_what_it_can_play() {
    let mut s = PuzzleScreen::new(None);
    assert!(s.takes_event(&AppEvent::PuzzleOpponentMove));
    // Any fetched puzzle can be taken: one whose FEN cannot be read, even
    // with a rank counting past 255 files, is reported as not loaded.
    let huge = format!("8/8/8/8/8/8/8/{} w - - 0 1", "9".repeat(29));
    assert!(s.takes_event(&AppEvent::PuzzleLoaded(puzzle_of(Some(&huge)))));
    assert!(is_redraw(&s.handle_event(AppEvent::PuzzleLoaded(puzzle_of(Some(&huge))))));
    assert_eq!(s.sidebar.status_text, "Could not load puzzle");
    assert!(s.session.is_none());
    // The expected move b2a1 steps a pawn onto an empty first-rank square,
    // which the position cannot apply.
    let mut p = puzzle_of(Some("4k3/8/8/8/8/8/1P6/4K3 w - - 0 1"));
    p.solution = vec!["b2a1".to_string(), "e8d8".to_string()];
    p.last_move = None;
    assert!(s.takes_event(&AppEvent::PuzzleLoaded(p.clone())));
    assert!(is_redraw(&s.handle_event(AppEvent::PuzzleLoaded(p))));
    let wrong = ChessMove { from: Square::new(4, 0), to: Square::new(4, 1) };
    let expected = ChessMove { from: Square::new(1, 1), to: Square::new(0, 0) };
    let unencodable = ChessMove { from: Square::new(200, 0), to: Square::new(0, 0) };
    assert!(s.takes_event(&AppEvent::MoveMade(wrong)));
    assert!(!s.takes_event(&AppEvent::MoveMade(expected)));
    assert!(!s.takes_event(&AppEvent::MoveMade(unencodable)));
    assert!(s.takes_event(&AppEvent::PuzzleOpponentMove));
    assert!(s.takes_event(&AppEvent::Expose));
    // A wrong guess is answered as usual; a late reply is dropped.
    assert!(is_redraw(&s.handle_event(AppEvent::MoveMade(wrong))));
    assert_eq!(s.sidebar.status_text, "Try something else");
    assert!(is_stay(&s.handle_event(AppEvent::PuzzleOpponentMove)));
}

#[test]
fn empty_game_slots_read_dash() {
    let mut s = OngoingChessGamesScreen::new(idle_app());
    let games: Vec<GameData> = (0..6).map(|i| game(&format!("g{i}"), "-", i % 2 == 0)).collect();
    s.handle_event(AppEvent::OngoingGamesLoaded(GameDataList { now_playing: games }));
    for page in 0..2 {
        let labels = [
            &s.chessgame_button_0.label,
            &s.chessgame_button_1.label,
            &s.chessgame_button_2.label,
            &s.chessgame_button_3.label,
        ];
        for (k, label) in labels.iter().enumerate() {
            assert_eq!(label.as_str() == "-", s.game_at_slot(k).is_none(), "page {page} slot {k}");
        }
        let next = AppEvent::Touch(TouchEvent {
            x: s.next_page_button.rect.x + 1,
            y: s.next_page_button.rect.y + 1,
            kind: TouchKind::Up,
        });
        s.handle_event(next);
    }
    // A player named "-" still gets a label of its own.
    assert_eq!(s.chessgame_button_0.label, "> VS - <");
}

#[test]
fn signing_in_reaches_the_home_screen() {
    let mut home = HomeScreen::new();
    let mut auth = ChessAuthScreen::new();
    let first = auth.handle_event(AppEvent::AuthSuccess(token(), user()));
    let posted = match first.effect {
        Some(Effect::Post(e)) => e,
        _ => panic!("posted event expected"),
    };
    let second = auth.handle_event(posted);
    assert!(matches!(second.transition, Transition::Pop));
    let passed_on = match second.effect {
        Some(Effect::Post(e)) => e,
        _ => panic!("passed-on event expected"),
    };
    assert!(is_redraw(&home.handle_event(passed_on)));
    let app = home.app.as_ref().expect("signed-in app");
    assert_eq!(app.token().map(|t| t.access_token), Some("lip_abc".to_string()));
    let r = home.handle_event(up_on(&home.ongoing_games_button));
    assert!(matches!(r.transition, Transition::Push(Screen::OngoingGames(_))));
}

#[test]
fn puzzle_settings_reach_the_fetch() {
    let mut settings = PuzzleSettingsScreen::new(PuzzleParams::default());
    settings.handle_event(up_on(&settings.difficulty_button));
    let r = settings.handle_event(up_on(&settings.fetch_button));
    let posted = match r.effect {
        Some(Effect::Post(e)) => e,
        _ => panic!("posted parameters expected"),
    };
    let mut puzzle = PuzzleScreen::new(Some(token()));
    let r = puzzle.handle_event(posted);
    assert_eq!(puzzle.params, settings.params);
    assert_eq!(puzzle.sidebar.status_text, "Loading…");
    match r.effect {
        Some(Effect::FetchNextPuzzle(Some(t), p)) => {
            assert_eq!(t.access_token, "lip_abc");
            assert_eq!(p.difficulty, Difficulty::Harder);
        }
        _ => panic!("fetch expected"),
    }
}
