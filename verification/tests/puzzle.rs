use kindle_chess::bitboard::{square, Color, Piece};
use kindle_chess::puzzle::{
    Difficulty, Puzzle, PuzzleColor, PuzzleParams, PuzzlePhase, PuzzleSession, PuzzleStatus,
};

fn puzzle(fen: &str, solution: &[&str], last_move: Option<&str>) -> Puzzle {
    Puzzle {
        id: "test".to_string(),
        rating: 1500,
        plays: 0,
        solution: solution.iter().map(|s| s.to_string()).collect(),
        themes: vec![],
        initial_ply: 0,
        fen: Some(fen.to_string()),
        last_move: last_move.map(|s| s.to_string()),
    }
}

const FEN: &str = "4k2r/4bppp/1qpB4/1p2p3/4Q1n1/5N2/PPP2PPP/R2R2K1 b k - 0 1";

#[test]
fn solver_color_from_fen() {
    // Side-to-move "b" in the FEN means the solver plays Black.
    let s = PuzzleSession::new(puzzle(FEN, &["g4f2", "e4d4", "e5d4"], Some("d3e4"))).unwrap();
    assert!(!s.solver_white);
    assert_eq!(s.status, PuzzleStatus::Solving);
}

#[test]
fn correct_sequence_solves_puzzle() {
    let mut s = PuzzleSession::new(puzzle(FEN, &["g4f2", "e4d4", "e5d4"], Some("d3e4"))).unwrap();
    // A correct, non-final move leaves the opponent's reply pending and
    // blocks further input until it is played.
    assert_eq!(s.try_move("g4f2"), PuzzleStatus::Correct);
    assert!(s.opponent_reply_pending());
    assert!(!s.accepts_input());
    // Playing the reply (e4d4) advances the position and hands control back.
    assert_eq!(s.apply_opponent_reply(), PuzzleStatus::Solving);
    assert_eq!(s.position.piece_at(square(3, 3)), Some((Color::White, Piece::Queen)));
    assert!(s.accepts_input());
    // Final move finishes the puzzle.
    assert_eq!(s.try_move("e5d4"), PuzzleStatus::Solved);
    assert!(!s.accepts_input());
}

#[test]
fn wrong_move_leaves_position_and_allows_retry() {
    let mut s = PuzzleSession::new(puzzle(FEN, &["g4f2", "e4d4", "e5d4"], Some("d3e4"))).unwrap();
    let before = s.position.clone();
    assert_eq!(s.try_move("g4h2"), PuzzleStatus::Wrong);
    // Position untouched after a wrong move.
    assert_eq!(s.position.piece_at(square(7, 1)), before.piece_at(square(7, 1)));
    assert_eq!(s.progress, 0);
    // Retrying with the right move still works.
    assert_eq!(s.try_move("g4f2"), PuzzleStatus::Correct);
}

#[test]
fn underpromotion_accepted_via_from_to_match() {
    // Solution is an under-promotion to a knight; the board widget always
    // submits a queen suffix, so try_move must match on from/to and apply
    // the canonical solution move.
    let mut s = PuzzleSession::new(puzzle("4k3/P7/8/8/8/8/8/4K3 w - - 0 1", &["a7a8n"], None))
        .unwrap();
    assert_eq!(s.try_move("a7a8q"), PuzzleStatus::Solved);
    assert_eq!(s.position.piece_at(square(0, 7)), Some((Color::White, Piece::Knight)));
}

#[test]
fn session_requires_a_fen() {
    let mut p = puzzle(FEN, &["g4f2"], None);
    p.fen = None;
    assert_eq!(PuzzleSession::new(p).err().unwrap(), "puzzle response carried no FEN");
    let p = puzzle("8/8", &["g4f2"], None);
    assert_eq!(PuzzleSession::new(p).err().unwrap(), "FEN must have 8 ranks, got 2");
    let huge = format!("8/8/8/8/8/8/8/{} w - - 0 1", "9".repeat(29));
    assert_eq!(
        PuzzleSession::new(puzzle(&huge, &["g4f2"], None)).err().unwrap(),
        format!("unreadable FEN '{huge}': a rank counts too many files")
    );
}

#[test]
fn last_move_masks() {
    let s = PuzzleSession::new(puzzle(FEN, &["g4f2", "e4d4", "e5d4"], Some("d3e4"))).unwrap();
    assert_eq!(s.last_move_mask, (1u64 << square(3, 2)) | (1u64 << square(4, 3)));
    let s = PuzzleSession::new(puzzle(FEN, &["g4f2"], Some("d3"))).unwrap();
    assert_eq!(s.last_move_mask, 0);
    let s = PuzzleSession::new(puzzle(FEN, &["g4f2"], Some("z9e4"))).unwrap();
    assert_eq!(s.last_move_mask, 1u64 << square(4, 3));
    let mut s = PuzzleSession::new(puzzle(FEN, &["g4f2", "e4d4", "e5d4"], None)).unwrap();
    assert_eq!(s.last_move_mask, 0);
    s.try_move("g4f2");
    // The knight left g4 and took the pawn on f2.
    assert_eq!(s.last_move_mask, (1u64 << square(6, 3)) | (1u64 << square(5, 1)));
}

#[test]
fn hints_and_finished_puzzles() {
    let mut s = PuzzleSession::new(puzzle(FEN, &["g4f2", "e4d4"], None)).unwrap();
    assert_eq!(s.next_expected_move(), Some("g4f2"));
    assert_eq!(s.try_move("g4f2"), PuzzleStatus::Correct);
    assert_eq!(s.next_expected_move(), None);
    // While the reply is pending further moves are ignored.
    assert_eq!(s.try_move("e5d4"), PuzzleStatus::Correct);
    assert_eq!(s.progress, 1);
    assert_eq!(s.apply_opponent_reply(), PuzzleStatus::Solved);
    assert!(!s.opponent_reply_pending());
    assert_eq!(s.apply_opponent_reply(), PuzzleStatus::Solved);
    assert_eq!(s.try_move("g4f2"), PuzzleStatus::Solved);
    assert_eq!(s.progress, 2);
}

#[test]
fn settings_values_cycle() {
    assert_eq!(Difficulty::Hardest.next(), Difficulty::Easiest);
    assert_eq!(Difficulty::Normal.label(), "Normal");
    assert_eq!(Difficulty::Harder.as_param(), "harder");
    let mut p = PuzzlePhase::Any;
    for _ in 0..10 {
        p = p.next();
    }
    assert_eq!(p, PuzzlePhase::Any);
    assert_eq!(PuzzlePhase::Any.as_angle(), None);
    assert_eq!(PuzzlePhase::QueenRookEndgame.as_angle(), Some("queenRookEndgame"));
    assert_eq!(PuzzlePhase::QueenRookEndgame.label(), "Queen & rook");
    assert_eq!(PuzzleColor::Random.as_param(), None);
    assert_eq!(PuzzleColor::Black.as_param(), Some("black"));
    assert_eq!(PuzzleColor::Black.next().label(), "Random");
    let d = PuzzleParams::default();
    assert_eq!(d.difficulty, Difficulty::Normal);
    assert_eq!(d.phase, PuzzlePhase::Any);
    assert_eq!(d.color, PuzzleColor::Random);
}

#[test]
fn reply_pending_follows_the_moves() {
    let mut s = PuzzleSession::new(puzzle(FEN, &["g4f2", "e4d4", "e5d4"], None)).unwrap();
    assert!(!s.opponent_reply_pending());
    assert_eq!(s.try_move("g4h2"), PuzzleStatus::Wrong);
    assert!(!s.opponent_reply_pending());
    assert_eq!(s.try_move("g4f2"), PuzzleStatus::Correct);
    assert!(s.opponent_reply_pending());
    assert_eq!(s.apply_opponent_reply(), PuzzleStatus::Solving);
    assert!(!s.opponent_reply_pending());
    // With none pending, playing a reply changes nothing.
    assert_eq!(s.apply_opponent_reply(), PuzzleStatus::Solving);
    assert_eq!(s.progress, 2);
    assert_eq!(s.try_move("e5d4"), PuzzleStatus::Solved);
    assert!(!s.opponent_reply_pending());
}
