//! Applying moves in UCI notation (`e2e4`, `e1g1`, `a7a8q`) to a position.
//!
//! A move is read from the UTF-8 bytes of its text. Castling is recognised by
//! the king moving two files, en passant by a pawn moving diagonally onto an
//! empty square, and a fifth byte names the promotion piece.

use crate::bitboard::{
    lemma_occupant_sound, lemma_occupant_unique, occupant, on_board, opposite, square,
    well_formed, Bitboards, Color, Occupancy, Piece,
};
use crate::text::{
    chars_of, is_ws, lemma_ws_tokens_split, push_char, push_chars, push_str, string_of, views, ws_split, ws_tokens,
};
use vstd::prelude::*;
use vstd::utf8::encode_utf8;

verus! {

/// Model of a position: its occupied triples and the side to move.
pub type Model = (Occupancy, Color);

impl Bitboards {
    pub open spec fn model(self) -> Model {
        (self.occupied(), self.side_to_move)
    }
}

/// Byte `b` is a file letter, `a` to `h`.
pub open spec fn is_file_byte(b: u8) -> bool {
    97 <= b <= 104
}

/// Byte `b` is a rank digit, `1` to `8`.
pub open spec fn is_rank_byte(b: u8) -> bool {
    49 <= b <= 56
}

/// The square named by a file byte and a rank byte.
pub open spec fn square_of(f: u8, r: u8) -> int {
    (r - 49) * 8 + (f - 97)
}

/// The piece named by a promotion byte.
pub open spec fn promotion_of(b: u8) -> Option<Piece> {
    if b == 113 {
        Some(Piece::Queen)
    } else if b == 114 {
        Some(Piece::Rook)
    } else if b == 98 {
        Some(Piece::Bishop)
    } else if b == 110 {
        Some(Piece::Knight)
    } else {
        None
    }
}

pub open spec fn too_short_message(mv: Seq<char>) -> Seq<char> {
    "UCI move too short: '"@ + mv + "'"@
}

pub open spec fn bad_square_message(f: u8, r: u8) -> Seq<char> {
    "bad square '"@ + seq![f as char, r as char] + "'"@
}

pub open spec fn bad_promotion_message(b: u8) -> Seq<char> {
    "bad promotion '"@ + seq![b as char] + "'"@
}

/// Algebraic name of square `sq`, such as `e4`.
pub open spec fn square_name_of(sq: int) -> Seq<char> {
    seq![(97 + sq % 8) as char, (49 + sq / 8) as char]
}

/// A square's name reads back as that square: its two characters are a
/// file letter and a rank digit that name `sq`.
pub proof fn lemma_square_name_parses(sq: int)
    requires
        0 <= sq < 64,
    ensures
        ({
            let n = square_name_of(sq);
            &&& n.len() == 2
            &&& is_file_byte(n[0] as u8)
            &&& is_rank_byte(n[1] as u8)
            &&& square_of(n[0] as u8, n[1] as u8) == sq
        }),
{
    let n = square_name_of(sq);
    assert(n[0] as u8 == 97 + sq % 8);
    assert(n[1] as u8 == 49 + sq / 8);
}

/// A file letter and a rank digit name a square on the board, whose name
/// is those two characters.
pub proof fn lemma_square_of_named(f: u8, r: u8)
    requires
        is_file_byte(f),
        is_rank_byte(r),
    ensures
        0 <= square_of(f, r) < 64,
        square_name_of(square_of(f, r)) == seq![f as char, r as char],
{
    let sq = square_of(f, r);
    assert(sq % 8 == f - 97);
    assert(sq / 8 == r - 49);
    assert(square_name_of(sq) =~= seq![f as char, r as char]);
}

pub open spec fn no_piece_message(sq: int) -> Seq<char> {
    "no piece on "@ + square_name_of(sq)
}

/// The rook that accompanies a king moving two files: h-file to f-file
/// (king side) or a-file to d-file (queen side), on the king's rank.
pub open spec fn castle_rooks(occ: Occupancy, color: Color, piece: Piece, from: int, to: int) -> Occupancy {
    let rank = from / 8;
    if piece == Piece::King && to % 8 - from % 8 == 2 {
        occ.remove((color, Piece::Rook, rank * 8 + 7)).insert((color, Piece::Rook, rank * 8 + 5))
    } else if piece == Piece::King && to % 8 - from % 8 == -2 {
        occ.remove((color, Piece::Rook, rank * 8)).insert((color, Piece::Rook, rank * 8 + 3))
    } else {
        occ
    }
}

/// A pawn moving diagonally onto an empty square captures en passant.
pub open spec fn is_en_passant(occ: Occupancy, piece: Piece, from: int, to: int) -> bool {
    piece == Piece::Pawn && from % 8 != to % 8 && occupant(occ, to) is None
}

/// The square of the pawn taken en passant: one rank behind `to`, seen from
/// the side of the capturing pawn.
pub open spec fn ep_victim(color: Color, to: int) -> int {
    if color == Color::White {
        (to / 8 - 1) * 8 + to % 8
    } else {
        (to / 8 + 1) * 8 + to % 8
    }
}

/// The en-passant victim square would lie off the board.
pub open spec fn ep_off_board(color: Color, to: int) -> bool {
    if color == Color::White {
        to / 8 == 0
    } else {
        to / 8 == 7
    }
}

/// The position after `color`'s `piece` moves from `from` to `to`: the
/// castling rook moves, an en-passant victim leaves, `from` is vacated for
/// the moving piece, `to` is emptied of anything and receives the piece (or
/// its promotion), and the other side is to move.
pub open spec fn moved(
    m: Model,
    from: int,
    to: int,
    color: Color,
    piece: Piece,
    promo: Option<Piece>,
) -> Model {
    let o1 = castle_rooks(m.0, color, piece, from, to);
    let o2 = if is_en_passant(o1, piece, from, to) {
        o1.remove((opposite(color), Piece::Pawn, ep_victim(color, to)))
    } else {
        o1
    };
    let placed = match promo {
        Some(p) => p,
        None => piece,
    };
    (
        o2.remove((color, piece, from)).filter(|t: (Color, Piece, int)| t.2 != to).insert(
            (color, placed, to),
        ),
        opposite(m.1),
    )
}

/// What applying the UCI move `mv` to `m` gives: the new position, or the
/// error message; `None` where the en-passant victim square would lie off
/// the board, on which input `apply_uci_move` is not defined.
pub open spec fn uci_outcome(m: Model, mv: Seq<char>) -> Option<Result<Model, Seq<char>>> {
    let b = encode_utf8(mv);
    if b.len() < 4 {
        Some(Err(too_short_message(mv)))
    } else if !(is_file_byte(b[0]) && is_rank_byte(b[1])) {
        Some(Err(bad_square_message(b[0], b[1])))
    } else if !(is_file_byte(b[2]) && is_rank_byte(b[3])) {
        Some(Err(bad_square_message(b[2], b[3])))
    } else if b.len() >= 5 && promotion_of(b[4]) is None {
        Some(Err(bad_promotion_message(b[4])))
    } else {
        let from = square_of(b[0], b[1]);
        let to = square_of(b[2], b[3]);
        let promo = if b.len() >= 5 {
            promotion_of(b[4])
        } else {
            None
        };
        match occupant(m.0, from) {
            None => Some(Err(no_piece_message(from))),
            Some((color, piece)) => if is_en_passant(m.0, piece, from, to) && ep_off_board(
                color,
                to,
            ) {
                None
            } else {
                Some(Ok(moved(m, from, to, color, piece, promo)))
            },
        }
    }
}

fn parse_square(f: u8, r: u8) -> (res: Result<u8, String>)
    ensures
        match res {
            Ok(sq) => is_file_byte(f) && is_rank_byte(r) && sq == square_of(f, r),
            Err(e) => !(is_file_byte(f) && is_rank_byte(r)) && e@ == bad_square_message(f, r),
        },
{
    if !(97u8 <= f && f <= 104u8) || !(49u8 <= r && r <= 56u8) {
        let mut e = string_of("bad square '");
        push_char(&mut e, f as char);
        push_char(&mut e, r as char);
        push_str(&mut e, "'");
        assert(e@ =~= bad_square_message(f, r));
        return Err(e);
    }
    Ok(square(f - 97u8, r - 49u8))
}

fn promotion_piece(b: u8) -> (res: Result<Piece, String>)
    ensures
        match res {
            Ok(p) => promotion_of(b) == Some(p),
            Err(e) => promotion_of(b) is None && e@ == bad_promotion_message(b),
        },
{
    match b {
        113u8 => Ok(Piece::Queen),
        114u8 => Ok(Piece::Rook),
        98u8 => Ok(Piece::Bishop),
        110u8 => Ok(Piece::Knight),
        other => {
            let mut e = string_of("bad promotion '");
            push_char(&mut e, other as char);
            push_str(&mut e, "'");
            assert(e@ =~= bad_promotion_message(b));
            Err(e)
        },
    }
}

fn square_name(sq: u8) -> (r: String)
    requires
        sq < 64,
    ensures
        r@ == square_name_of(sq as int),
{
    let mut s = String::new();
    push_char(&mut s, (97u8 + (sq % 8)) as char);
    push_char(&mut s, (49u8 + (sq / 8)) as char);
    assert(s@ =~= square_name_of(sq as int));
    s
}

impl Bitboards {
    /// Apply one UCI move. Moves the piece found on the from-square (whatever
    /// its colour), handles castling, en passant and promotion, and passes
    /// the move to the other side. On an error nothing changes.
    pub fn apply_uci_move(&mut self, mv: &str) -> (r: Result<(), String>)
        requires
            uci_outcome(old(self).model(), mv@) is Some,
        ensures
            match uci_outcome(old(self).model(), mv@) {
                Some(Ok(m)) => r is Ok && final(self).model() == m,
                Some(Err(e)) => r matches Err(s) && s@ == e && *final(self) == *old(self),
                None => false,
            },
    {
        let bytes = mv.as_bytes();
        proof {
            assert(bytes@ == encode_utf8(mv@));
        }
        if bytes.len() < 4 {
            let mut e = string_of("UCI move too short: '");
            push_str(&mut e, mv);
            push_str(&mut e, "'");
            return Err(e);
        }
        let from = match parse_square(bytes[0], bytes[1]) {
            Ok(s) => s,
            Err(e) => return Err(e),
        };
        let to = match parse_square(bytes[2], bytes[3]) {
            Ok(s) => s,
            Err(e) => return Err(e),
        };
        let promo = if bytes.len() >= 5 {
            match promotion_piece(bytes[4]) {
                Ok(p) => Some(p),
                Err(e) => return Err(e),
            }
        } else {
            None
        };
        let (color, piece) = match self.piece_at(from) {
            Some(cp) => cp,
            None => {
                let mut e = string_of("no piece on ");
                let name = square_name(from);
                push_str(&mut e, name.as_str());
                return Err(e);
            },
        };
        let ghost m0 = self.model();
        // Castling: the king moves exactly two files; the rook moves along.
        if piece == Piece::King {
            let from_file = from % 8;
            let to_file = to % 8;
            let rank = from / 8;
            if to_file as i8 - from_file as i8 == 2 {
                let rook_from = square(7, rank);
                let rook_to = square(5, rank);
                self.clear(color, Piece::Rook, rook_from);
                self.set(color, Piece::Rook, rook_to);
            } else if to_file as i8 - from_file as i8 == -2 {
                let rook_from = square(0, rank);
                let rook_to = square(3, rank);
                self.clear(color, Piece::Rook, rook_from);
                self.set(color, Piece::Rook, rook_to);
            }
        }
        let ghost o1 = self.occupied();
        assert(o1 == castle_rooks(m0.0, color, piece, from as int, to as int));
        // En passant: a pawn moves diagonally onto an empty square; the
        // captured pawn stands behind `to`.
        if piece == Piece::Pawn && (from % 8) != (to % 8) && self.piece_at(to).is_none() {
            let captured_rank = if color == Color::White {
                to / 8 - 1
            } else {
                to / 8 + 1
            };
            let captured_sq = square(to % 8, captured_rank);
            self.clear(color.flip(), Piece::Pawn, captured_sq);
        }
        let ghost o2 = self.occupied();
        assert(o2 == if is_en_passant(o1, piece, from as int, to as int) {
            o1.remove((opposite(color), Piece::Pawn, ep_victim(color, to as int)))
        } else {
            o1
        });
        self.clear(color, piece, from);
        self.clear_any(to);
        let placed = promo.unwrap_or(piece);
        self.set(color, placed, to);
        self.side_to_move = self.side_to_move.flip();
        proof {
            let mm = moved(m0, from as int, to as int, color, piece, promo);
            assert(placed == match promo {
                Some(p) => p,
                None => piece,
            });
            let target = o2.remove((color, piece, from as int)).filter(
                |t: (Color, Piece, int)| t.2 != to as int,
            ).insert((color, placed, to as int));
            assert(target == mm.0);
            assert(self.occupied() =~= target);
        }
        Ok(())
    }
}


/// The position reached by applying the moves `toks` in turn, a move that
/// is rejected, or that the position cannot apply (see `uci_outcome`),
/// being skipped.
pub open spec fn moves_outcome(m: Model, toks: Seq<Seq<char>>) -> Model
    decreases toks.len(),
{
    if toks.len() == 0 {
        m
    } else {
        match uci_outcome(m, toks[0]) {
            Some(Ok(m2)) => moves_outcome(m2, toks.drop_first()),
            _ => moves_outcome(m, toks.drop_first()),
        }
    }
}

/// Applying the moves `t1` then `t2` reaches where applying `t1` and then,
/// from there, `t2` does.
pub proof fn lemma_moves_outcome_append(m: Model, t1: Seq<Seq<char>>, t2: Seq<Seq<char>>)
    ensures
        moves_outcome(m, t1 + t2) == moves_outcome(moves_outcome(m, t1), t2),
    decreases t1.len(),
{
    if t1.len() > 0 {
        assert((t1 + t2)[0] == t1[0]);
        assert((t1 + t2).drop_first() =~= t1.drop_first() + t2);
        match uci_outcome(m, t1[0]) {
            Some(Ok(m2)) => lemma_moves_outcome_append(m2, t1.drop_first(), t2),
            _ => lemma_moves_outcome_append(m, t1.drop_first(), t2),
        }
    } else {
        assert(t1 + t2 =~= t2);
    }
}

/// `apply_uci_moves` on `a`, a whitespace character, then `c` does what
/// `apply_uci_moves(a)` followed by `apply_uci_moves(c)` does; on
/// whitespace alone, or on no moves, it leaves the position as it is.
pub proof fn lemma_apply_uci_moves_concat(m: Model, a: Seq<char>, w: char, c: Seq<char>)
    requires
        is_ws(w),
    ensures
        moves_outcome(m, ws_tokens(a + seq![w] + c)) == moves_outcome(
            moves_outcome(m, ws_tokens(a)),
            ws_tokens(c),
        ),
        moves_outcome(m, ws_tokens(Seq::empty())) == m,
        moves_outcome(m, ws_tokens(seq![w])) == m,
{
    lemma_ws_tokens_split(a, w, c);
    lemma_moves_outcome_append(m, ws_tokens(a), ws_tokens(c));
    lemma_ws_tokens_split(Seq::empty(), w, Seq::empty());
    assert(Seq::<char>::empty() + seq![w] + Seq::<char>::empty() =~= seq![w]);
    assert(ws_tokens(Seq::empty()) =~= Seq::<Seq<char>>::empty());
}

impl Bitboards {
    /// Whether `apply_uci_move` is defined for `mv` on this position: false
    /// exactly when `mv` is a pawn stepping diagonally onto an empty square of
    /// its own first rank (White) or of the last rank (Black), where the pawn
    /// it would take en passant lies off the board.
    pub fn uci_move_defined(&self, mv: &str) -> (r: bool)
        ensures
            r == (uci_outcome(self.model(), mv@) is Some),
    {
        let bytes = mv.as_bytes();
        proof {
            assert(bytes@ == encode_utf8(mv@));
        }
        if bytes.len() < 4 {
            return true;
        }
        let from = match parse_square(bytes[0], bytes[1]) {
            Ok(s) => s,
            Err(_) => return true,
        };
        let to = match parse_square(bytes[2], bytes[3]) {
            Ok(s) => s,
            Err(_) => return true,
        };
        if bytes.len() >= 5 {
            if promotion_piece(bytes[4]).is_err() {
                return true;
            }
        }
        match self.piece_at(from) {
            None => true,
            Some((color, piece)) => {
                if piece == Piece::Pawn && (from % 8) != (to % 8) && self.piece_at(to).is_none() {
                    if color == Color::White {
                        to / 8 != 0
                    } else {
                        to / 8 != 7
                    }
                } else {
                    true
                }
            },
        }
    }

    /// Apply each whitespace-separated UCI move of `moves` in turn. A move
    /// that is rejected, or that the position cannot apply, is skipped; the
    /// board may briefly be wrong, but the next streamed snapshot rebuilds
    /// it.
    pub fn apply_uci_moves(&mut self, moves: &str)
        ensures
            final(self).model() == moves_outcome(old(self).model(), ws_tokens(moves@)),
    {
        let chars = chars_of(moves);
        let toks = ws_split(&chars);
        let n = toks.len();
        let mut i: usize = 0;
        assert(views(toks@).subrange(0, n as int) =~= views(toks@));
        while i < n
            invariant
                n == toks.len(),
                i <= n,
                views(toks@) == ws_tokens(moves@),
                moves_outcome(old(self).model(), ws_tokens(moves@)) == moves_outcome(
                    self.model(),
                    views(toks@).subrange(i as int, n as int),
                ),
            decreases n - i,
        {
            let mut text = String::new();
            push_chars(&mut text, &toks[i]);
            let ghost rest = views(toks@).subrange(i as int, n as int);
            assert(rest[0] == toks@[i as int]@);
            assert(text@ =~= toks@[i as int]@);
            assert(rest.drop_first() =~= views(toks@).subrange(i + 1, n as int));
            if self.uci_move_defined(text.as_str()) {
                match self.apply_uci_move(text.as_str()) {
                    Ok(()) => {},
                    Err(_) => {},
                }
            }
            i += 1;
        }
        assert(views(toks@).subrange(n as int, n as int) =~= Seq::<Seq<char>>::empty());
    }
}


/// The square the castling rook lands on, when `piece` moving from `from` to
/// `to` castles.
pub open spec fn castle_rook_target(piece: Piece, from: int, to: int) -> Option<int> {
    let rank = from / 8;
    if piece == Piece::King && to % 8 - from % 8 == 2 {
        Some(rank * 8 + 5)
    } else if piece == Piece::King && to % 8 - from % 8 == -2 {
        Some(rank * 8 + 3)
    } else {
        None
    }
}

/// A castling rook lands on the king's own square, on its destination, or
/// on a square that holds nothing but a rook of its colour.
pub open spec fn rook_lands_clear(occ: Occupancy, color: Color, piece: Piece, from: int, to: int) -> bool {
    match castle_rook_target(piece, from, to) {
        None => true,
        Some(rt) => rt == from || rt == to || forall|c: Color, p: Piece|
            #[trigger] occ.contains((c, p, rt)) ==> c == color && p == Piece::Rook,
    }
}

/// The from-square and to-square named by a UCI move's first four bytes.
pub open spec fn uci_from(mv: Seq<char>) -> int {
    square_of(encode_utf8(mv)[0], encode_utf8(mv)[1])
}

pub open spec fn uci_to(mv: Seq<char>) -> int {
    square_of(encode_utf8(mv)[2], encode_utf8(mv)[3])
}

proof fn lemma_moved_well_formed(
    m: Model,
    from: int,
    to: int,
    color: Color,
    piece: Piece,
    promo: Option<Piece>,
)
    requires
        well_formed(m.0),
        on_board(m.0),
        0 <= from < 64,
        0 <= to < 64,
        occupant(m.0, from) == Some((color, piece)),
        rook_lands_clear(m.0, color, piece, from, to),
    ensures
        well_formed(moved(m, from, to, color, piece, promo).0),
        on_board(moved(m, from, to, color, piece, promo).0),
{
    lemma_occupant_sound(m.0, from);
    let placed = match promo {
        Some(p) => p,
        None => piece,
    };
    let o1 = castle_rooks(m.0, color, piece, from, to);
    let o2 = if is_en_passant(o1, piece, from, to) {
        o1.remove((opposite(color), Piece::Pawn, ep_victim(color, to)))
    } else {
        o1
    };
    let o3 = moved(m, from, to, color, piece, promo).0;
    assert forall|t: (Color, Piece, int)| #[trigger] o3.contains(t) implies 0 <= t.2 < 64 && (
    t.2 == to || (o2.contains(t) && t != (color, piece, from))) by {}
    assert forall|t: (Color, Piece, int)| #[trigger] o2.contains(t) implies o1.contains(t) by {}
    assert forall|t: (Color, Piece, int)| #[trigger] o1.contains(t) implies m.0.contains(t) || (
    t.0 == color && t.1 == Piece::Rook && castle_rook_target(piece, from, to) == Some(t.2)) by {}
    assert forall|c1: Color, p1: Piece, c2: Color, p2: Piece, sq: int|
        #[trigger] o3.contains((c1, p1, sq)) && #[trigger] o3.contains((c2, p2, sq)) implies c1
        == c2 && p1 == p2 by {
        if sq != to {
            assert(o1.contains((c1, p1, sq)) && o1.contains((c2, p2, sq)));
            if m.0.contains((c1, p1, sq)) && m.0.contains((c2, p2, sq)) {
            } else if m.0.contains((c1, p1, sq)) {
                assert(m.0.contains((c1, p1, sq)));
                if sq == from {
                    assert(m.0.contains((color, piece, from)));
                    assert(c1 == color && p1 == piece);
                }
            } else if m.0.contains((c2, p2, sq)) {
                assert(m.0.contains((c2, p2, sq)));
                if sq == from {
                    assert(m.0.contains((color, piece, from)));
                    assert(c2 == color && p2 == piece);
                }
            }
        }
    }
}

/// A successful move leaves a well-formed position well formed, provided a
/// castling rook does not land on another piece (a case that never arises
/// from legal play, and on which two pieces would share a square), passes
/// the move to the other side, and leaves on the destination square just the
/// moved piece, or its promotion.
pub proof fn lemma_uci_move_keeps_well_formed(m: Model, mv: Seq<char>)
    requires
        well_formed(m.0),
        on_board(m.0),
        uci_outcome(m, mv) matches Some(Ok(_)),
        match occupant(m.0, uci_from(mv)) {
            Some((c, p)) => rook_lands_clear(m.0, c, p, uci_from(mv), uci_to(mv)),
            None => true,
        },
    ensures
        match uci_outcome(m, mv) {
            Some(Ok(m2)) => {
                &&& well_formed(m2.0)
                &&& on_board(m2.0)
                &&& m2.1 == opposite(m.1)
                &&& match occupant(m.0, uci_from(mv)) {
                    Some((c, p)) => if encode_utf8(mv).len() >= 5 {
                        occupant(m2.0, uci_to(mv)) == Some(
                            (c, promotion_of(encode_utf8(mv)[4]).unwrap()),
                        )
                    } else {
                        occupant(m2.0, uci_to(mv)) == Some((c, p))
                    },
                    None => false,
                }
            },
            _ => false,
        },
{
    let b = encode_utf8(mv);
    let from = uci_from(mv);
    let to = uci_to(mv);
    let (color, piece) = occupant(m.0, from).unwrap();
    let promo = if b.len() >= 5 {
        promotion_of(b[4])
    } else {
        None
    };
    lemma_moved_well_formed(m, from, to, color, piece, promo);
    let m2 = moved(m, from, to, color, piece, promo);
    let placed = match promo {
        Some(p) => p,
        None => piece,
    };
    lemma_occupant_unique(m2.0, to, color, placed);
}

} // verus!
