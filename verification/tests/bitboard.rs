use kindle_chess::bitboard::{bit, square, Bitboards, Color, Piece};

#[test]
fn starting_position_layout() {
    let bb = Bitboards::starting_position();
    assert_eq!(bb.piece_at(square(0, 0)), Some((Color::White, Piece::Rook)));
    assert_eq!(bb.piece_at(square(4, 0)), Some((Color::White, Piece::King)));
    assert_eq!(bb.piece_at(square(4, 7)), Some((Color::Black, Piece::King)));
    assert_eq!(bb.piece_at(square(3, 3)), None);
    assert_eq!(bb.side_to_move, Color::White);
}

#[test]
fn pawn_double_then_capture() {
    let mut bb = Bitboards::starting_position();
    bb.apply_uci_moves("e2e4 d7d5 e4d5");
    assert_eq!(bb.piece_at(square(3, 4)), Some((Color::White, Piece::Pawn)));
    assert_eq!(bb.piece_at(square(4, 3)), None);
}

#[test]
fn kingside_castle() {
    let mut bb = Bitboards::from_fen(
        "rnbqkbnr/pppp1ppp/8/4p3/4P3/5N2/PPPP1PPP/RNBQKB1R w KQkq - 0 1",
    )
    .unwrap();
    bb.apply_uci_move("f1c4").unwrap();
    bb.apply_uci_move("f8c5").unwrap();
    bb.apply_uci_move("e1g1").unwrap();
    assert_eq!(bb.piece_at(square(6, 0)), Some((Color::White, Piece::King)));
    assert_eq!(bb.piece_at(square(5, 0)), Some((Color::White, Piece::Rook)));
    assert_eq!(bb.piece_at(square(7, 0)), None);
}

#[test]
fn en_passant_capture() {
    let mut bb = Bitboards::from_fen("4k3/8/8/3pP3/8/8/8/4K3 w - d6 0 1").unwrap();
    bb.apply_uci_move("e5d6").unwrap();
    assert_eq!(bb.piece_at(square(3, 5)), Some((Color::White, Piece::Pawn)));
    assert_eq!(bb.piece_at(square(3, 4)), None); // captured pawn gone
}

#[test]
fn promotion_to_queen() {
    let mut bb = Bitboards::from_fen("4k3/P7/8/8/8/8/8/4K3 w - - 0 1").unwrap();
    bb.apply_uci_move("a7a8q").unwrap();
    assert_eq!(bb.piece_at(square(0, 7)), Some((Color::White, Piece::Queen)));
}

fn same_layout(a: &Bitboards, b: &Bitboards) -> bool {
    (0..64u8).all(|sq| a.piece_at(sq) == b.piece_at(sq))
}

#[test]
fn startpos_literal_is_the_initial_position() {
    let parsed = Bitboards::from_fen("  startpos \n").unwrap();
    let start = Bitboards::starting_position();
    assert!(same_layout(&parsed, &start));
    assert_eq!(parsed.side_to_move, Color::White);
    let from_text =
        Bitboards::from_fen("rnbqkbnr/pppppppp/8/8/8/8/PPPPPPPP/RNBQKBNR w - - 0 1").unwrap();
    assert_eq!(from_text.boards, start.boards);
}

#[test]
fn fen_side_to_move_defaults_to_white() {
    let bb = Bitboards::from_fen("8/8/8/8/8/8/8/8").unwrap();
    assert_eq!(bb.side_to_move, Color::White);
    let bb = Bitboards::from_fen("8/8/8/8/8/8/8/8 b").unwrap();
    assert_eq!(bb.side_to_move, Color::Black);
}

#[test]
fn fen_errors_name_the_problem() {
    assert_eq!(Bitboards::from_fen("   ").unwrap_err(), "empty FEN");
    assert_eq!(
        Bitboards::from_fen("8/8/8").unwrap_err(),
        "FEN must have 8 ranks, got 3"
    );
    assert_eq!(
        Bitboards::from_fen("8/8/8/8/8/8/8/8/8/8/8/8").unwrap_err(),
        "FEN must have 8 ranks, got 12"
    );
    assert_eq!(
        Bitboards::from_fen("8p/8/8/8/8/8/8/8").unwrap_err(),
        "FEN rank '8p' overflows 8 files"
    );
    assert_eq!(
        Bitboards::from_fen("7x/8/8/8/8/8/8/8").unwrap_err(),
        "FEN: unknown piece char 'x'"
    );
    assert_eq!(
        Bitboards::from_fen("8/8/8/8/8/8/8/8 white").unwrap_err(),
        "FEN: bad side-to-move 'white'"
    );
}

#[test]
fn fen_defined_flags_file_counter_overflow() {
    let long_rank = "9".repeat(30);
    let fen = format!("{}/8/8/8/8/8/8/8", long_rank);
    assert!(!Bitboards::fen_defined(&fen));
    assert!(Bitboards::fen_defined("8/8/8/8/8/8/8/8"));
    assert!(Bitboards::fen_defined("bogus"));
}

#[test]
fn uci_errors_leave_the_board_unchanged() {
    let mut bb = Bitboards::starting_position();
    let before = bb.boards;
    assert_eq!(bb.apply_uci_move("e2").unwrap_err(), "UCI move too short: 'e2'");
    assert_eq!(bb.apply_uci_move("z2e4").unwrap_err(), "bad square 'z2'");
    assert_eq!(bb.apply_uci_move("e2e9").unwrap_err(), "bad square 'e9'");
    assert_eq!(bb.apply_uci_move("e2e4x").unwrap_err(), "bad promotion 'x'");
    assert_eq!(bb.apply_uci_move("e4e5").unwrap_err(), "no piece on e4");
    assert_eq!(bb.boards, before);
    assert_eq!(bb.side_to_move, Color::White);
}

#[test]
fn move_flips_side_and_skips_rejected_moves() {
    let mut bb = Bitboards::starting_position();
    bb.apply_uci_moves("e2e4 zz e7e5");
    assert_eq!(bb.piece_at(square(4, 3)), Some((Color::White, Piece::Pawn)));
    assert_eq!(bb.piece_at(square(4, 4)), Some((Color::Black, Piece::Pawn)));
    assert_eq!(bb.side_to_move, Color::White);
}

#[test]
fn queenside_castle_moves_the_rook() {
    let mut bb = Bitboards::from_fen("r3k3/8/8/8/8/8/8/4K3 b - - 0 1").unwrap();
    bb.apply_uci_move("e8c8").unwrap();
    assert_eq!(bb.piece_at(square(2, 7)), Some((Color::Black, Piece::King)));
    assert_eq!(bb.piece_at(square(3, 7)), Some((Color::Black, Piece::Rook)));
    assert_eq!(bb.piece_at(square(0, 7)), None);
}

#[test]
fn uci_move_defined_rejects_backward_en_passant() {
    let bb = Bitboards::from_fen("4k3/8/8/8/8/8/1P6/4K3 w - - 0 1").unwrap();
    assert!(!bb.uci_move_defined("b2a1"));
    assert!(bb.uci_move_defined("b2b3"));
    // A list with such a move skips it and plays on.
    let mut skipped = bb;
    skipped.apply_uci_moves("b2a1 e8d8 b2b3");
    assert_eq!(skipped.piece_at(square(1, 1)), None);
    assert_eq!(skipped.piece_at(square(1, 2)), Some((Color::White, Piece::Pawn)));
    assert_eq!(skipped.piece_at(square(3, 7)), Some((Color::Black, Piece::King)));
    assert_eq!(skipped.side_to_move, Color::White);
}

#[test]
fn square_and_bit_agree() {
    assert_eq!(square(4, 3), 28);
    assert_eq!(bit(28), 1u64 << 28);
    assert_eq!(Color::White.flip(), Color::Black);
    assert_eq!(Color::Black.flip().flip(), Color::Black);
    let bb = Bitboards::starting_position();
    assert_eq!(bb.board(Color::White, Piece::Pawn), 0xff00);
    assert_eq!(bb.board(Color::Black, Piece::King), 1u64 << 60);
    assert!(Bitboards::empty().piece_at(0).is_none());
}

#[test]
fn square_names_read_back() {
    let empty = Bitboards::from_fen("4k3/8/8/8/8/8/8/8 w - - 0 1").unwrap();
    for file in 0..8u8 {
        for rank in 0..8u8 {
            let sq = square(file, rank);
            if empty.piece_at(sq).is_some() {
                continue;
            }
            let name = format!("{}{}", (b'a' + file) as char, (b'1' + rank) as char);
            let mut bb = empty;
            let err = bb.apply_uci_move(&format!("{name}{name}")).unwrap_err();
            assert_eq!(err, format!("no piece on {name}"));
        }
    }
}

#[test]
fn move_lists_apply_in_turn() {
    let mut whole = Bitboards::starting_position();
    whole.apply_uci_moves("e2e4 e7e5\tg1f3 zz b8c6");
    let mut parts = Bitboards::starting_position();
    parts.apply_uci_moves("e2e4 e7e5");
    parts.apply_uci_moves("g1f3 zz b8c6");
    assert!(same_layout(&whole, &parts));
    assert_eq!(whole.side_to_move, parts.side_to_move);
    assert_eq!(whole.piece_at(square(2, 5)), Some((Color::Black, Piece::Knight)));
    // No moves, or whitespace alone, leave the position as it is.
    let start = Bitboards::starting_position();
    let mut none = start;
    none.apply_uci_moves("");
    none.apply_uci_moves(" \n\t ");
    assert_eq!(none.boards, start.boards);
    assert_eq!(none.side_to_move, start.side_to_move);
}

#[test]
fn fen_fields_after_the_side_are_ignored() {
    let p = "r3k2r/8/8/8/4P3/8/8/R3K2R";
    let a = Bitboards::from_fen(&format!("{p} w KQkq - 0 1")).unwrap();
    let b = Bitboards::from_fen(&format!("{p} w - e3 7 9")).unwrap();
    let c = Bitboards::from_fen(&format!("{p} w")).unwrap();
    assert_eq!(a.boards, b.boards);
    assert_eq!(a.boards, c.boards);
    assert_eq!((a.side_to_move, b.side_to_move), (Color::White, Color::White));
    let e = Bitboards::from_fen(&format!("{p} x KQkq - 0 1")).unwrap_err();
    assert_eq!(e, Bitboards::from_fen(&format!("{p} x")).unwrap_err());
}

#[test]
fn fen_places_each_letter_on_its_file() {
    // Rank 8: knight on b8 after one empty file; rank 5: a digit run then
    // a pawn on f5; rank 1: king e1, rook h1.
    let bb = Bitboards::from_fen("1n6/8/8/5p2/8/8/8/4K2R b - - 0 1").unwrap();
    let mut placed = Vec::new();
    for sq in 0..64u8 {
        if let Some(p) = bb.piece_at(sq) {
            placed.push((sq, p));
        }
    }
    assert_eq!(
        placed,
        vec![
            (square(4, 0), (Color::White, Piece::King)),
            (square(7, 0), (Color::White, Piece::Rook)),
            (square(5, 4), (Color::Black, Piece::Pawn)),
            (square(1, 7), (Color::Black, Piece::Knight)),
        ]
    );
    assert_eq!(bb.side_to_move, Color::Black);
}

#[test]
fn standard_fen_is_the_starting_position() {
    let parsed =
        Bitboards::from_fen("rnbqkbnr/pppppppp/8/8/8/8/PPPPPPPP/RNBQKBNR w KQkq - 0 1").unwrap();
    let start = Bitboards::starting_position();
    assert_eq!(parsed.boards, start.boards);
    assert_eq!(parsed.side_to_move, start.side_to_move);
}
