use kindle_chess::bitboard::{square, Bitboards, Color, Piece};
use kindle_chess::board_geometry::{square_background, PIECE_DRAW_SIZE};
use kindle_chess::events::{AppEvent, ChessMove, Rectangle, RectangleExt, Square, TouchEvent, TouchKind};
use kindle_chess::sidebar::{PuzzleSidebarWidget, SidebarPaint, SidebarWidget, StatusIcon};
use kindle_chess::board_api::Turn;
use kindle_chess::puzzle::PuzzleStatus;
use kindle_chess::widgets::{highlight_color, square_to_index, BoardPaint, BoardWidget, DrawColor, IconButton};

fn board() -> BoardWidget {
    BoardWidget::new(Rectangle::new(0, 0, 1072, 1072))
}

fn down(x: i16, y: i16) -> TouchEvent {
    TouchEvent { x, y, kind: TouchKind::Down }
}

fn up(x: i16, y: i16) -> TouchEvent {
    TouchEvent { x, y, kind: TouchKind::Up }
}

#[test]
fn square_algebraic_names() {
    assert_eq!(Square::new(4, 3).to_algebraic(), "e4");
    assert_eq!(Square::new(0, 0).to_algebraic(), "a1");
    assert_eq!(Square::new(7, 7).to_algebraic(), "h8");
}

#[test]
fn rectangle_contains_is_half_open() {
    let r = Rectangle::new(10, 20, 30, 40);
    assert!(r.contains(10, 20));
    assert!(r.contains(39, 59));
    assert!(!r.contains(40, 20));
    assert!(!r.contains(10, 60));
    assert!(!r.contains(9, 30));
}

#[test]
fn highlight_contrasts_with_square() {
    // a1 is dark: light decorations; b1 is light: black decorations.
    assert_eq!(highlight_color(0, 0), DrawColor::LightGray);
    assert_eq!(highlight_color(1, 0), DrawColor::Black);
    assert_eq!(square_background(0), DrawColor::DarkGray);
    assert_eq!(square_background(1), DrawColor::LightGray);
    assert_eq!(square_to_index(Square::new(4, 3)), 28);
}

#[test]
fn tap_select_then_move() {
    let mut b = board();
    // e2 is file 4, rank 1: x in 536..670, y in 804..938 from White's side.
    let ev = b.handle_touch(&down(600, 850));
    assert!(matches!(ev, Some(AppEvent::SquareSelected(s)) if s == Square::new(4, 1)));
    assert_eq!(b.selected_square, Some(Square::new(4, 1)));
    // e4: rank 3, y in 536..670.
    let ev = b.handle_touch(&down(600, 600));
    match ev {
        Some(AppEvent::MoveMade(m)) => {
            assert_eq!(m, ChessMove { from: Square::new(4, 1), to: Square::new(4, 3) })
        }
        other => panic!("expected a move, got {:?}", other),
    }
    assert_eq!(b.selected_square, None);
}

#[test]
fn double_tap_deselects_and_release_is_ignored() {
    let mut b = board();
    assert!(b.handle_touch(&up(600, 850)).is_none());
    assert_eq!(b.selected_square, None);
    b.handle_touch(&down(600, 850));
    assert!(b.handle_touch(&down(601, 851)).is_none());
    assert_eq!(b.selected_square, None);
    // Off the board: nothing.
    assert!(b.handle_touch(&down(600, 1200)).is_none());
}

#[test]
fn flipped_board_maps_touches_to_true_squares() {
    let mut b = board();
    b.set_flipped(true);
    assert!(b.force_full_repaint);
    // Top-left cell of a flipped board is h1.
    let ev = b.handle_touch(&down(10, 10));
    assert!(matches!(ev, Some(AppEvent::SquareSelected(s)) if s == Square::new(7, 0)));
    // Drawing agrees: h1 is drawn at the top-left when flipped.
    let r = b.square_rect(7);
    assert_eq!((r.x, r.y, r.width, r.height), (0, 0, 134, 134));
}

#[test]
fn move_to_uci_promotes_pawns_to_queens() {
    let mut b = board();
    let m = ChessMove { from: Square::new(4, 1), to: Square::new(4, 3) };
    assert_eq!(b.move_to_uci(m), None);
    b.set_position(Bitboards::starting_position());
    assert_eq!(b.move_to_uci(m).as_deref(), Some("e2e4"));
    let fen_board = Bitboards::from_fen("8/4P3/8/8/8/8/8/k6K w - - 0 1").unwrap();
    b.set_position(fen_board);
    let promo = ChessMove { from: Square::new(4, 6), to: Square::new(4, 7) };
    assert_eq!(b.move_to_uci(promo).as_deref(), Some("e7e8q"));
}

#[test]
fn board_render_repaints_only_changes() {
    let mut b = board();
    b.set_position(Bitboards::starting_position());
    let first = b.render();
    assert_eq!(first.len(), 1);
    assert!(matches!(first[0], BoardPaint::Full));
    assert!(b.render().is_empty());
    let mut next = Bitboards::starting_position();
    next.apply_uci_move("e2e4").unwrap();
    b.set_position(next);
    b.set_last_move((1u64 << 12) | (1u64 << 28));
    let plan = b.render();
    // e2 and e4 repainted, then both get the last-move brackets.
    assert!(plan.contains(&BoardPaint::Square { sq: 12, piece: None, scrub: true }));
    assert!(plan.contains(&BoardPaint::Square {
        sq: 28,
        piece: Some((Color::White, Piece::Pawn)),
        scrub: false
    }));
    assert!(plan.contains(&BoardPaint::LastMove(12)));
    assert!(plan.contains(&BoardPaint::LastMove(28)));
    let _ = square(4, 3);
}

#[test]
fn board_geometry_of_a_square() {
    let b = board();
    // e2 from White's side: column 4, row 6.
    let r = b.square_rect(12);
    assert_eq!((r.x, r.y), (536, 804));
    assert_eq!(b.piece_origin(12), (555, 823));
    assert_eq!(PIECE_DRAW_SIZE, 96);
    let cuts = b.selection_cuts(Square::new(4, 1));
    assert_eq!(cuts[0], (536, 804, 552, 820));
    assert_eq!(cuts[2], (670, 938, 654, 922));
    let arms = b.last_move_arms(12);
    assert_eq!(arms.len(), 8);
    assert_eq!((arms[0].x, arms[0].y, arms[0].width, arms[0].height), (536, 804, 16, 6));
    assert_eq!((arms[3].x, arms[3].y, arms[3].width, arms[3].height), (664, 804, 6, 16));
}

#[test]
fn icon_button_footprint() {
    let b = IconButton::new(10, 20, "hint.png").with_glyph_size(90);
    assert_eq!((b.rect.width, b.rect.height), (134, 134));
    assert_eq!(b.asset, "hint.png");
    assert_eq!(b.glyph_size, 90);
    assert!(b.contains(143, 153));
    assert!(!b.contains(144, 20));
}

#[test]
fn sidebar_shows_turn_and_rejections() {
    let mut s = SidebarWidget::new(Rectangle::new(0, 1072, 1072, 376));
    assert_eq!(s.turn_status, "Loading…");
    assert_eq!(s.back_button.rect.x, 24);
    assert_eq!(s.back_button.rect.y, 1072 + 121);
    assert_eq!(s.settings_button.rect.x, 1072 - 134 - 24);
    assert!(s.opponent_line().is_none());
    s.set_opponent("magnus".to_string());
    assert_eq!(s.opponent_line().as_deref(), Some("vs magnus"));
    s.set_turn(Turn::Over { winner: Some("White".to_string()) });
    assert_eq!(s.turn_status, "White won!");
    s.set_move_rejected();
    assert_eq!(s.status_line_text(), ("Try something else".to_string(), true));
    s.set_turn(Turn::Playing);
    assert_eq!(s.status_line_text(), ("Your turn".to_string(), false));
    let plan = s.render();
    assert!(matches!(plan[0], SidebarPaint::Frame));
    assert!(s.render().is_empty());
    s.set_turn(Turn::Waiting);
    assert_eq!(s.turn_status, "Waiting for opponent");
    let plan = s.render();
    assert_eq!(plan, vec![SidebarPaint::ClearBand(s.status_band), SidebarPaint::SecondLine]);
}

#[test]
fn sidebar_touches() {
    let s = SidebarWidget::new(Rectangle::new(0, 1072, 1072, 376));
    let (bx, by) = (s.back_button.rect.x + 5, s.back_button.rect.y + 5);
    assert!(matches!(s.handle_touch(&up(bx, by)), Some(AppEvent::ExitToMenu)));
    assert!(s.handle_touch(&down(bx, by)).is_none());
    let (sx, sy) = (s.settings_button.rect.x + 5, s.settings_button.rect.y + 5);
    assert!(matches!(s.handle_touch(&up(sx, sy)), Some(AppEvent::OpenGameActions)));
}

#[test]
fn puzzle_sidebar_status_and_info() {
    let mut s = PuzzleSidebarWidget::new(Rectangle::new(0, 1072, 1072, 376));
    assert_eq!(s.next_button.label, "Next puzzle");
    assert!(s.rating_line().is_none());
    s.set_status(&PuzzleStatus::Wrong);
    assert_eq!(s.status_text, "Try something else");
    assert_eq!(s.status_icon, StatusIcon::Cross);
    s.set_status(&PuzzleStatus::Solved);
    assert_eq!(s.status_text, "Finished Puzzle");
    assert_eq!(s.status_icon, StatusIcon::Check);
    s.set_message("Loading…");
    assert_eq!(s.status_icon, StatusIcon::NoIcon);
    let themes: Vec<String> =
        ["fork", "short", "middlegame", "crushing", "advantage"].iter().map(|t| t.to_string()).collect();
    s.set_puzzle_info(1834, &themes);
    assert_eq!(s.themes, "fork · short · middlegame · crushing");
    assert_eq!(s.rating_line().as_deref(), Some("Puzzle rating: 1834"));
    s.set_puzzle_info(-7, &[]);
    assert_eq!(s.themes, "");
    assert_eq!(s.rating_line().as_deref(), Some("Puzzle rating: -7"));
    let (hx, hy) = (s.hint_button.rect.x + 1, s.hint_button.rect.y + 1);
    assert!(matches!(s.handle_touch(&up(hx, hy)), Some(AppEvent::ShowPuzzleHint)));
    let (nx, ny) = (s.next_button.rect.x + 1, s.next_button.rect.y + 1);
    assert!(matches!(s.handle_touch(&up(nx, ny)), Some(AppEvent::NextPuzzle)));
}

#[test]
fn render_repaints_each_square_once() {
    let mut b = board();
    b.set_position(Bitboards::starting_position());
    b.set_last_move((1u64 << 12) | (1u64 << 28));
    b.select_square(Some(Square::new(4, 3)));
    b.render();
    // Change the position, move the last-move marks and the selection at
    // once, so that every repaint pass has work.
    let mut next = Bitboards::starting_position();
    next.apply_uci_moves("e2e4 e7e5");
    b.set_position(next);
    b.set_last_move((1u64 << 52) | (1u64 << 36));
    b.select_square(Some(Square::new(6, 0)));
    let plan = b.render();
    let mut seen = std::collections::HashSet::new();
    for step in &plan {
        if let BoardPaint::Square { sq, .. } = step {
            assert!(seen.insert(*sq), "square {sq} repainted twice in {plan:?}");
        }
    }
    assert!(seen.contains(&12) && seen.contains(&28));
}

#[test]
fn sidebar_bands_leave_buttons_alone() {
    fn disjoint(a: Rectangle, b: Rectangle) -> bool {
        let (ax, ay, bx, by) = (a.x as i32, a.y as i32, b.x as i32, b.y as i32);
        ax + a.width as i32 <= bx || bx + b.width as i32 <= ax || ay + a.height as i32 <= by || by + b.height as i32 <= ay
    }
    let s = SidebarWidget::new(Rectangle::new(0, 1072, 1072, 376));
    for band in [s.opponent_band, s.status_band] {
        assert!(disjoint(band, s.back_button.rect) && disjoint(band, s.settings_button.rect));
    }
    let p = PuzzleSidebarWidget::new(Rectangle::new(0, 1072, 1072, 376));
    for band in [p.status_band, p.info_band] {
        for button in [p.back_button.rect, p.hint_button.rect, p.settings_button.rect, p.next_button.rect] {
            assert!(disjoint(band, button));
        }
    }
}
