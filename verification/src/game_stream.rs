//! Reading the live-game stream. Every snapshot Lichess sends carries the
//! full move list from the first move, so the position is always rebuilt
//! from the initial one rather than patched; the last move is found by
//! replaying all moves but the last and comparing the two positions, which
//! also catches the rook of a castling move and a pawn taken en passant.

use crate::bitboard::{occupant, Bitboards, Color};
use crate::board_api::{display_name_of, PlayedBy, Turn};
use crate::puzzle::diff_mask;
use crate::text::{chars_equal, chars_of, push_chars, views, ws_split, ws_tokens};
use crate::uci::{moves_outcome, Model};
use vstd::prelude::*;

verus! {

/// `r` marks exactly the squares whose occupant differs between `before`
/// and `after`.
pub open spec fn marks_changes(r: u64, before: Model, after: Model) -> bool {
    forall|s: int|
        0 <= s < 64 ==> (crate::bitboard::bit_set(r, s) <==> occupant(before.0, s) != occupant(
            after.0,
            s,
        ))
}

/// `board` with the first `n` moves of `toks` applied (moves that are
/// rejected or cannot be applied skipped).
fn apply_first(board: &mut Bitboards, toks: &Vec<Vec<char>>, n: usize)
    requires
        n <= toks.len(),
    ensures
        final(board).model() == moves_outcome(old(board).model(), views(toks@).take(n as int)),
{
    let mut i: usize = 0;
    assert(views(toks@).take(n as int).subrange(0, n as int) =~= views(toks@).take(n as int));
    while i < n
        invariant
            n <= toks.len(),
            i <= n,
            moves_outcome(old(board).model(), views(toks@).take(n as int)) == moves_outcome(
                board.model(),
                views(toks@).take(n as int).subrange(i as int, n as int),
            ),
        decreases n - i,
    {
        let mut text = String::new();
        push_chars(&mut text, &toks[i]);
        let ghost rest = views(toks@).take(n as int).subrange(i as int, n as int);
        assert(rest[0] == toks@[i as int]@);
        assert(text@ =~= toks@[i as int]@);
        assert(rest.drop_first() =~= views(toks@).take(n as int).subrange(i + 1, n as int));
        if board.uci_move_defined(text.as_str()) {
            match board.apply_uci_move(text.as_str()) {
                Ok(()) => {},
                Err(_) => {},
            }
        }
        i += 1;
    }
    assert(views(toks@).take(n as int).subrange(n as int, n as int) =~= Seq::<Seq<char>>::empty());
}

/// The position after `moves` (whitespace-separated UCI) from `initial`,
/// moves that are rejected or cannot be applied skipped, and the squares
/// the last move changed (none without moves).
pub fn snapshot(initial: &Bitboards, moves: &str) -> (r: (Bitboards, u64))
    ensures
        r.0.model() == moves_outcome(initial.model(), ws_tokens(moves@)),
        ws_tokens(moves@).len() == 0 ==> r.1 == 0,
        ws_tokens(moves@).len() > 0 ==> marks_changes(
            r.1,
            moves_outcome(initial.model(), ws_tokens(moves@).drop_last()),
            r.0.model(),
        ),
{
    let chars = chars_of(moves);
    let toks = ws_split(&chars);
    let n = toks.len();
    let ghost all = views(toks@);
    assert(all.take(n as int) =~= all);
    let mut after = *initial;
    apply_first(&mut after, &toks, n);
    if n == 0 {
        return (after, 0);
    }
    proof {
        assert(all.take(n - 1) =~= all.drop_last());
    }
    let mut before = *initial;
    apply_first(&mut before, &toks, n - 1);
    let mask = diff_mask(&before, &after);
    (after, mask)
}

/// A game status that ends the game: anything but `started` and `created`.
pub open spec fn terminal_status(status: Seq<char>) -> bool {
    !(status == "started"@ || status == "created"@)
}

pub fn is_terminal_status(status: &str) -> (r: bool)
    ensures
        r == terminal_status(status@),
{
    let s = chars_of(status);
    let started = chars_of("started");
    let created = chars_of("created");
    !(chars_equal(&s, &started) || chars_equal(&s, &created))
}

/// The name shown for the winning colour: White's or Black's side as the
/// game names it, or nothing (a draw, or the side not known).
pub open spec fn winner_name(winner: Option<Seq<char>>, white: Option<PlayedBy>, black: Option<PlayedBy>) -> Option<Seq<char>> {
    match winner {
        Some(c) => if c == "white"@ {
            match white {
                Some(p) => Some(display_name_of(p)),
                None => None,
            }
        } else if c == "black"@ {
            match black {
                Some(p) => Some(display_name_of(p)),
                None => None,
            }
        } else {
            None
        },
        None => None,
    }
}

/// Map Lichess's winning colour to the winner's display name.
pub fn resolve_winner(winner: &Option<String>, white: &Option<PlayedBy>, black: &Option<PlayedBy>) -> (r: Option<String>)
    ensures
        match r {
            Some(n) => winner_name(
                match winner {
                    Some(w) => Some(w@),
                    None => None,
                },
                *white,
                *black,
            ) == Some(n@),
            None => winner_name(
                match winner {
                    Some(w) => Some(w@),
                    None => None,
                },
                *white,
                *black,
            ) is None,
        },
{
    let w = match winner {
        Some(w) => chars_of(w.as_str()),
        None => return None,
    };
    let side = if chars_equal(&w, &chars_of("white")) {
        white
    } else if chars_equal(&w, &chars_of("black")) {
        black
    } else {
        return None;
    };
    match side {
        Some(p) => Some(p.display_name()),
        None => None,
    }
}

/// Whether the local user (id `user_id`) plays White: the white side is
/// that user.
pub fn plays_white(white: &PlayedBy, user_id: &str) -> (r: bool)
    ensures
        r == (white matches PlayedBy::User(p) && p.id@ == user_id@),
{
    match white {
        PlayedBy::User(p) => chars_equal(&chars_of(p.id.as_str()), &chars_of(user_id)),
        PlayedBy::Ai(_) => false,
    }
}

/// The turn shown for a game in `status` whose position is `board`: over
/// (with the winner's name, if any) once the status is terminal; otherwise
/// the local player's move exactly when the side to move is theirs.
pub open spec fn turn_of(status: Seq<char>, winner: Option<String>, board: Bitboards, player0_white: bool) -> Turn {
    if terminal_status(status) {
        Turn::Over { winner }
    } else if (board.side_to_move == Color::White) == player0_white {
        Turn::Playing
    } else {
        Turn::Waiting
    }
}

/// A game whose status is anything but `started` or `created` is over,
/// with or without a winner (a draw, stalemate or abort has none); while it
/// runs, it is the player's turn exactly when the side to move is theirs.
pub proof fn lemma_turn_after_status(
    status: Seq<char>,
    winner: Option<String>,
    board: Bitboards,
    player0_white: bool,
)
    ensures
        status != "started"@ && status != "created"@ ==> turn_of(status, winner, board, player0_white)
            == (Turn::Over { winner }),
        status == "started"@ || status == "created"@ ==> {
            &&& !(turn_of(status, winner, board, player0_white) is Over)
            &&& (turn_of(status, winner, board, player0_white) is Playing) == ((board.side_to_move
                == Color::White) == player0_white)
        },
{
}

pub fn turn_after(status: &str, winner: Option<String>, board: &Bitboards, player0_white: bool) -> (r: Turn)
    ensures
        r == turn_of(status@, winner, *board, player0_white),
{
    if is_terminal_status(status) {
        Turn::Over { winner }
    } else if (board.side_to_move == Color::White) == player0_white {
        Turn::Playing
    } else {
        Turn::Waiting
    }
}

} // verus!
