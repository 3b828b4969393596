//! Reading positions from FEN text.
//!
//! Only the piece placement and side-to-move fields are read; castling
//! rights, en passant and clocks are ignored because only the layout is
//! needed. The literal `startpos`, which Lichess streams for games from the
//! standard initial position, stands for that position.

use crate::bitboard::{
    bit_set, lemma_occupant_well_formed, occupant, on_board, square, well_formed, Bitboards, Color,
    Occupancy, Piece,
};
use crate::text::{
    chars_equal, chars_of, decimal, is_ws, lemma_split_from_last, lemma_split_from_piece,
    lemma_ws_tokens_split, lemma_ws_tokens_word, no_ws,
    push_chars, push_decimal, push_str, split_chars, split_on, string_of, views, ws_split,
    ws_tokens,
};
use crate::uci::Model;
use vstd::prelude::*;

verus! {

/// `char::is_ascii_uppercase`.
pub open spec fn is_upper(c: char) -> bool {
    'A' <= c <= 'Z'
}

/// `char::to_ascii_lowercase`.
pub open spec fn lower(c: char) -> char {
    if is_upper(c) {
        ((c as u32) + 32) as char
    } else {
        c
    }
}

/// `char::to_digit(10)`.
pub open spec fn digit_of(c: char) -> Option<u32> {
    if '0' <= c <= '9' {
        Some(((c as u32) - 48) as u32)
    } else {
        None
    }
}

/// The piece a FEN letter stands for: upper case for White, lower case for
/// Black.
pub open spec fn piece_of_char(ch: char) -> Option<(Color, Piece)> {
    let color = if is_upper(ch) {
        Color::White
    } else {
        Color::Black
    };
    let l = lower(ch);
    if l == 'p' {
        Some((color, Piece::Pawn))
    } else if l == 'n' {
        Some((color, Piece::Knight))
    } else if l == 'b' {
        Some((color, Piece::Bishop))
    } else if l == 'r' {
        Some((color, Piece::Rook))
    } else if l == 'q' {
        Some((color, Piece::Queen))
    } else if l == 'k' {
        Some((color, Piece::King))
    } else {
        None
    }
}

fn is_ascii_uppercase(c: char) -> (r: bool)
    ensures
        r == is_upper(c),
{
    'A' <= c && c <= 'Z'
}

fn to_ascii_lowercase(c: char) -> (r: char)
    ensures
        r == lower(c),
{
    if 'A' <= c && c <= 'Z' {
        let u = (c as u32) + 32;
        char_from_ascii(u)
    } else {
        c
    }
}

/// The character of the ASCII code `u`.
fn char_from_ascii(u: u32) -> (c: char)
    requires
        u < 128,
    ensures
        c == u as char,
{
    (u as u8) as char
}

fn to_digit(c: char) -> (r: Option<u32>)
    ensures
        r == digit_of(c),
{
    if '0' <= c && c <= '9' {
        Some((c as u32) - 48)
    } else {
        None
    }
}

fn char_to_piece(ch: char) -> (r: Option<(Color, Piece)>)
    ensures
        r == piece_of_char(ch),
{
    let color = if is_ascii_uppercase(ch) {
        Color::White
    } else {
        Color::Black
    };
    let l = to_ascii_lowercase(ch);
    if l == 'p' {
        Some((color, Piece::Pawn))
    } else if l == 'n' {
        Some((color, Piece::Knight))
    } else if l == 'b' {
        Some((color, Piece::Bishop))
    } else if l == 'r' {
        Some((color, Piece::Rook))
    } else if l == 'q' {
        Some((color, Piece::Queen))
    } else if l == 'k' {
        Some((color, Piece::King))
    } else {
        None
    }
}

pub open spec fn rank_overflow_message(rank_text: Seq<char>) -> Seq<char> {
    "FEN rank '"@ + rank_text + "' overflows 8 files"@
}

pub open spec fn unknown_piece_message(ch: char) -> Seq<char> {
    "FEN: unknown piece char '"@ + seq![ch] + "'"@
}

pub open spec fn rank_count_message(n: nat) -> Seq<char> {
    "FEN must have 8 ranks, got "@ + decimal(n)
}

pub open spec fn bad_side_message(side: Seq<char>) -> Seq<char> {
    "FEN: bad side-to-move '"@ + side + "'"@
}

/// Placing the pieces of FEN rank text `cs` on `rank`, from character `i`
/// on, with `file` files already filled and `occ` placed so far. A digit
/// skips that many files; a letter places a piece. `None` where the file
/// count would exceed `u8::MAX`, on which `from_fen` is not defined.
pub open spec fn rank_scan(cs: Seq<char>, rank: int, file: int, i: int, occ: Occupancy) -> Option<
    Result<Occupancy, Seq<char>>,
>
    decreases cs.len() - i,
{
    if i < 0 || i >= cs.len() {
        Some(Ok(occ))
    } else {
        let ch = cs[i];
        match digit_of(ch) {
            Some(d) => if file + d > 255 {
                None
            } else {
                rank_scan(cs, rank, file + d, i + 1, occ)
            },
            None => if file >= 8 {
                Some(Err(rank_overflow_message(cs)))
            } else {
                match piece_of_char(ch) {
                    None => Some(Err(unknown_piece_message(ch))),
                    Some((c, p)) => rank_scan(
                        cs,
                        rank,
                        file + 1,
                        i + 1,
                        occ.insert((c, p, rank * 8 + file)),
                    ),
                }
            },
        }
    }
}

/// Placing the ranks `ranks[i..8]`; the first one is the top rank (rank 8).
pub open spec fn ranks_scan(ranks: Seq<Seq<char>>, i: int, occ: Occupancy) -> Option<
    Result<Occupancy, Seq<char>>,
>
    decreases 8 - i,
{
    if i < 0 || i >= 8 {
        Some(Ok(occ))
    } else {
        match rank_scan(ranks[i], 7 - i, 0, 0, occ) {
            Some(Ok(o2)) => ranks_scan(ranks, i + 1, o2),
            other => other,
        }
    }
}

/// The piece on `file` of a back rank in the initial position.
pub open spec fn back_rank_piece(file: int) -> Piece {
    if file == 0 || file == 7 {
        Piece::Rook
    } else if file == 1 || file == 6 {
        Piece::Knight
    } else if file == 2 || file == 5 {
        Piece::Bishop
    } else if file == 3 {
        Piece::Queen
    } else {
        Piece::King
    }
}

/// The occupied squares of the standard initial position.
pub open spec fn start_occupancy() -> Occupancy {
    Set::new(
        |t: (Color, Piece, int)|
            (t.0 == Color::White && t.1 == Piece::Pawn && 8 <= t.2 < 16) || (t.0 == Color::Black
                && t.1 == Piece::Pawn && 48 <= t.2 < 56) || (t.0 == Color::White && 0 <= t.2 < 8
                && t.1 == back_rank_piece(t.2)) || (t.0 == Color::Black && 56 <= t.2 < 64 && t.1
                == back_rank_piece(t.2 - 56)),
    )
}

/// `s` is `startpos` with nothing but whitespace around it.
pub open spec fn is_startpos(s: Seq<char>) -> bool {
    ws_tokens(s) == seq!["startpos"@]
}

/// What `from_fen` gives for the text `s`: the position, or the error
/// message; `None` where a rank's file count would exceed `u8::MAX`.
pub open spec fn fen_outcome(s: Seq<char>) -> Option<Result<Model, Seq<char>>> {
    if is_startpos(s) {
        Some(Ok((start_occupancy(), Color::White)))
    } else {
        let toks = ws_tokens(s);
        if toks.len() == 0 {
            Some(Err("empty FEN"@))
        } else {
            let ranks = split_on(toks[0], '/');
            if ranks.len() != 8 {
                Some(Err(rank_count_message(ranks.len())))
            } else {
                match ranks_scan(ranks, 0, Set::empty()) {
                    None => None,
                    Some(Err(e)) => Some(Err(e)),
                    Some(Ok(occ)) => {
                        let side = if toks.len() >= 2 {
                            toks[1]
                        } else {
                            seq!['w']
                        };
                        if side == seq!['w'] {
                            Some(Ok((occ, Color::White)))
                        } else if side == seq!['b'] {
                            Some(Ok((occ, Color::Black)))
                        } else {
                            Some(Err(bad_side_message(side)))
                        }
                    },
                }
            }
        }
    }
}

/// The files a FEN rank character fills: a digit its value, a piece one.
pub open spec fn file_step(ch: char) -> int {
    match digit_of(ch) {
        Some(d) => d as int,
        None => 1,
    }
}

/// How many files the rank text `cs` has filled before its character `j`.
pub open spec fn files_before(cs: Seq<char>, j: int) -> int
    decreases j,
{
    if j <= 0 {
        0
    } else {
        files_before(cs, j - 1) + file_step(cs[j - 1])
    }
}

/// Some character of rank text `cs` at index `i` or later, read as rank
/// `rank`, is the piece `(t.0, t.1)` standing on square `t.2`: the file
/// it stands on being the files filled before it.
pub open spec fn rank_places_from(cs: Seq<char>, rank: int, i: int, t: (Color, Piece, int)) -> bool {
    exists|j: int|
        i <= j < cs.len() && #[trigger] piece_of_char(cs[j]) == Some((t.0, t.1)) && t.2 == rank * 8
            + files_before(cs, j)
}

/// The FEN placement field `field` puts piece `(t.0, t.1)` on square
/// `t.2`: its `i`-th `/`-separated part is rank `8 - i` (square row
/// `7 - i`), and a piece letter stands on the file that the characters
/// before it in its part have filled.
pub open spec fn fen_places(field: Seq<char>, t: (Color, Piece, int)) -> bool {
    exists|i: int| 0 <= i < 8 && #[trigger] rank_places_from(split_on(field, '/')[i], 7 - i, 0, t)
}

proof fn lemma_rank_scan_places(cs: Seq<char>, rank: int, file: int, i: int, occ: Occupancy)
    requires
        0 <= i <= cs.len(),
        file == files_before(cs, i),
    ensures
        rank_scan(cs, rank, file, i, occ) matches Some(Ok(o)) ==> forall|t: (Color, Piece, int)|
            #[trigger] o.contains(t) <==> (occ.contains(t) || rank_places_from(cs, rank, i, t)),
    decreases cs.len() - i,
{
    if i == cs.len() {
        return;
    }
    let ch = cs[i];
    assert(files_before(cs, i + 1) == file + file_step(ch));
    match digit_of(ch) {
        Some(d) => {
            if file + d <= 255 {
                lemma_rank_scan_places(cs, rank, file + d, i + 1, occ);
                assert(piece_of_char(ch) is None);
                assert forall|t: (Color, Piece, int)|
                    rank_places_from(cs, rank, i, t) implies rank_places_from(cs, rank, i + 1, t) by {
                    let j = choose|j: int|
                        i <= j < cs.len() && #[trigger] piece_of_char(cs[j]) == Some((t.0, t.1))
                            && t.2 == rank * 8 + files_before(cs, j);
                    assert(j != i);
                }
            }
        },
        None => {
            if file < 8 {
                if let Some((c, p)) = piece_of_char(ch) {
                    let occ2 = occ.insert((c, p, rank * 8 + file));
                    lemma_rank_scan_places(cs, rank, file + 1, i + 1, occ2);
                    assert forall|t: (Color, Piece, int)|
                        rank_places_from(cs, rank, i, t) <==> (t == (c, p, rank * 8 + file)
                            || rank_places_from(cs, rank, i + 1, t)) by {
                        if rank_places_from(cs, rank, i, t) {
                            let j = choose|j: int|
                                i <= j < cs.len() && #[trigger] piece_of_char(cs[j]) == Some(
                                    (t.0, t.1),
                                ) && t.2 == rank * 8 + files_before(cs, j);
                            if j == i {
                                assert(t == (c, p, rank * 8 + file));
                            }
                        }
                        if t == (c, p, rank * 8 + file) {
                            assert(piece_of_char(cs[i]) == Some((t.0, t.1)));
                        }
                    }
                }
            }
        },
    }
}

proof fn lemma_ranks_scan_places(ranks: Seq<Seq<char>>, i: int, occ: Occupancy)
    requires
        0 <= i <= 8,
        ranks.len() == 8,
    ensures
        ranks_scan(ranks, i, occ) matches Some(Ok(o)) ==> forall|t: (Color, Piece, int)|
            #[trigger] o.contains(t) <==> (occ.contains(t) || exists|k: int|
                i <= k < 8 && #[trigger] rank_places_from(ranks[k], 7 - k, 0, t)),
    decreases 8 - i,
{
    if i < 8 {
        lemma_rank_scan_places(ranks[i], 7 - i, 0, 0, occ);
        if let Some(Ok(o2)) = rank_scan(ranks[i], 7 - i, 0, 0, occ) {
            lemma_ranks_scan_places(ranks, i + 1, o2);
            assert forall|t: (Color, Piece, int)|
                #![trigger rank_places_from(ranks[i], 7 - i, 0, t)]
                (exists|k: int| i <= k < 8 && #[trigger] rank_places_from(ranks[k], 7 - k, 0, t))
                    <==> (rank_places_from(ranks[i], 7 - i, 0, t) || exists|k: int|
                    i + 1 <= k < 8 && #[trigger] rank_places_from(ranks[k], 7 - k, 0, t)) by {
                if exists|k: int| i <= k < 8 && #[trigger] rank_places_from(ranks[k], 7 - k, 0, t) {
                    let k = choose|k: int|
                        i <= k < 8 && #[trigger] rank_places_from(ranks[k], 7 - k, 0, t);
                    if k != i {
                        assert(i + 1 <= k < 8 && rank_places_from(ranks[k], 7 - k, 0, t));
                    }
                }
            }
        }
    }
}

/// Where `from_fen` reads a placement, a piece stands on a square exactly
/// when the placement field (the first whitespace-separated field) puts it
/// there, and that piece is what `piece_at` reports for the square; no
/// square holds two pieces and none lies off the board.
pub proof fn lemma_fen_placement(s: Seq<char>)
    requires
        !is_startpos(s),
    ensures
        fen_outcome(s) matches Some(Ok(m)) ==> {
            &&& forall|t: (Color, Piece, int)| #[trigger]
                m.0.contains(t) <==> fen_places(ws_tokens(s)[0], t)
            &&& forall|sq: int, c: Color, p: Piece|
                occupant(m.0, sq) == Some((c, p)) <==> #[trigger] fen_places(
                    ws_tokens(s)[0],
                    (c, p, sq),
                )
            &&& well_formed(m.0)
            &&& on_board(m.0)
        },
{
    lemma_fen_well_formed(s);
    let toks = ws_tokens(s);
    if toks.len() > 0 {
        let ranks = split_on(toks[0], '/');
        if ranks.len() == 8 {
            lemma_ranks_scan_places(ranks, 0, Set::empty());
        }
    }
    if let Some(Ok(m)) = fen_outcome(s) {
        assert forall|sq: int, c: Color, p: Piece|
            occupant(m.0, sq) == Some((c, p)) <==> #[trigger] fen_places(
                ws_tokens(s)[0],
                (c, p, sq),
            ) by {
            lemma_occupant_well_formed(m.0, sq, c, p);
            assert(m.0.contains((c, p, sq)) <==> fen_places(ws_tokens(s)[0], (c, p, sq)));
        }
    }
}

/// The pieces a rank text made of piece letters only places, from its
/// character `i` on: letter `f` on file `f` of `rank`.
pub open spec fn letters_from(cs: Seq<char>, rank: int, i: int) -> Occupancy {
    Set::new(
        |t: (Color, Piece, int)|
            exists|f: int|
                i <= f < cs.len() && #[trigger] piece_of_char(cs[f]) == Some((t.0, t.1)) && t.2
                    == rank * 8 + f,
    )
}

proof fn lemma_letter_rank(cs: Seq<char>, rank: int, i: int, occ: Occupancy)
    requires
        0 <= i <= cs.len() <= 8,
        forall|j: int|
            0 <= j < cs.len() ==> digit_of(#[trigger] cs[j]) is None && piece_of_char(cs[j]) is Some,
    ensures
        rank_scan(cs, rank, i, i, occ) == Some(Ok::<Occupancy, Seq<char>>(occ + letters_from(cs, rank, i))),
    decreases cs.len() - i,
{
    if i == cs.len() {
        assert(occ + letters_from(cs, rank, i) =~= occ);
    } else {
        let cp = piece_of_char(cs[i])->0;
        let x = (cp.0, cp.1, rank * 8 + i);
        assert(digit_of(cs[i]) is None);
        lemma_letter_rank(cs, rank, i + 1, occ.insert(x));
        assert forall|t: (Color, Piece, int)|
            #[trigger] letters_from(cs, rank, i).contains(t) <==> (t == x || letters_from(
                cs,
                rank,
                i + 1,
            ).contains(t)) by {
            if letters_from(cs, rank, i).contains(t) {
                let f = choose|f: int|
                    i <= f < cs.len() && #[trigger] piece_of_char(cs[f]) == Some((t.0, t.1)) && t.2
                        == rank * 8 + f;
                if f != i {
                    assert(letters_from(cs, rank, i + 1).contains(t));
                }
            }
            if t == x {
                assert(piece_of_char(cs[i]) == Some((t.0, t.1)));
            }
        }
        assert(occ.insert(x) + letters_from(cs, rank, i + 1) =~= occ + letters_from(cs, rank, i));
    }
}

/// The rank text `8` places nothing.
proof fn lemma_empty_rank(e: Seq<char>, rank: int, occ: Occupancy)
    requires
        e == seq!['8'],
    ensures
        rank_scan(e, rank, 0, 0, occ) == Some(Ok::<Occupancy, Seq<char>>(occ)),
{
    assert(digit_of('8') == Some(8u32));
    assert(rank_scan(e, rank, 8, 1, occ) == Some(Ok::<Occupancy, Seq<char>>(occ)));
}

proof fn lemma_rank_contents(cs: Seq<char>, rank: int, color: Color, kind: spec_fn(int) -> Piece)
    requires
        cs.len() == 8,
        forall|f: int| 0 <= f < 8 ==> #[trigger] piece_of_char(cs[f]) == Some((color, kind(f))),
    ensures
        forall|t: (Color, Piece, int)| #[trigger]
            letters_from(cs, rank, 0).contains(t) <==> (t.0 == color && rank * 8 <= t.2 < rank * 8
                + 8 && t.1 == kind(t.2 - rank * 8)),
{
    assert forall|t: (Color, Piece, int)|
        (t.0 == color && rank * 8 <= t.2 < rank * 8 + 8 && t.1 == kind(t.2 - rank * 8)) implies
        #[trigger] letters_from(cs, rank, 0).contains(t) by {
        assert(piece_of_char(cs[t.2 - rank * 8]) == Some((t.0, t.1)));
    }
}

/// The standard FEN of the initial position reads as the initial position
/// with White to move: what `starting_position` gives.
pub proof fn lemma_standard_fen_is_start()
    ensures
        fen_outcome("rnbqkbnr/pppppppp/8/8/8/8/PPPPPPPP/RNBQKBNR w KQkq - 0 1"@) == Some(
            Ok::<Model, Seq<char>>((start_occupancy(), Color::White)),
        ),
{
    reveal_strlit("rnbqkbnr/pppppppp/8/8/8/8/PPPPPPPP/RNBQKBNR w KQkq - 0 1");
    reveal_strlit("rnbqkbnr");
    reveal_strlit("pppppppp");
    reveal_strlit("PPPPPPPP");
    reveal_strlit("RNBQKBNR");
    reveal_strlit("KQkq - 0 1");
    let full = "rnbqkbnr/pppppppp/8/8/8/8/PPPPPPPP/RNBQKBNR w KQkq - 0 1"@;
    let r8 = "rnbqkbnr"@;
    let r7 = "pppppppp"@;
    let r2 = "PPPPPPPP"@;
    let r1 = "RNBQKBNR"@;
    let e = seq!['8'];
    let w = seq!['w'];
    let rest = "KQkq - 0 1"@;
    let t6 = r2 + seq!['/'] + r1;
    let t5 = e + seq!['/'] + t6;
    let t4 = e + seq!['/'] + t5;
    let t3 = e + seq!['/'] + t4;
    let t2 = e + seq!['/'] + t3;
    let t1 = r7 + seq!['/'] + t2;
    let p = r8 + seq!['/'] + t1;
    assert(full =~= p + seq![' '] + w + seq![' '] + rest);
    assert(no_ws(p));
    assert(no_ws(w));
    lemma_fen_ignores_trailing_fields(p, ' ', w, ' ', rest);
    let short = p + seq![' '] + w;
    lemma_ws_tokens_split(p, ' ', w);
    lemma_ws_tokens_word(p);
    lemma_ws_tokens_word(w);
    assert(ws_tokens(short) =~= seq![p, w]);
    reveal_strlit("startpos");
    assert(!is_startpos(short));
    lemma_split_from_piece(Seq::empty(), r8, '/', t1);
    lemma_split_from_piece(Seq::empty(), r7, '/', t2);
    lemma_split_from_piece(Seq::empty(), e, '/', t3);
    lemma_split_from_piece(Seq::empty(), e, '/', t4);
    lemma_split_from_piece(Seq::empty(), e, '/', t5);
    lemma_split_from_piece(Seq::empty(), e, '/', t6);
    lemma_split_from_piece(Seq::empty(), r2, '/', r1);
    lemma_split_from_last(Seq::empty(), r1, '/');
    let ranks = split_on(p, '/');
    assert(Seq::<char>::empty() + r8 =~= r8);
    assert(Seq::<char>::empty() + r7 =~= r7);
    assert(Seq::<char>::empty() + e =~= e);
    assert(Seq::<char>::empty() + r2 =~= r2);
    assert(Seq::<char>::empty() + r1 =~= r1);
    assert(ranks =~= seq![r8, r7, e, e, e, e, r2, r1]);
    // The ranks, top to bottom.
    let black_back = |f: int| back_rank_piece(f);
    let pawns = |f: int| Piece::Pawn;
    assert forall|f: int| 0 <= f < 8 implies #[trigger] piece_of_char(r8[f]) == Some(
        (Color::Black, black_back(f)),
    ) by {}
    assert forall|f: int| 0 <= f < 8 implies #[trigger] piece_of_char(r7[f]) == Some(
        (Color::Black, pawns(f)),
    ) by {}
    assert forall|f: int| 0 <= f < 8 implies #[trigger] piece_of_char(r2[f]) == Some(
        (Color::White, pawns(f)),
    ) by {}
    assert forall|f: int| 0 <= f < 8 implies #[trigger] piece_of_char(r1[f]) == Some(
        (Color::White, black_back(f)),
    ) by {}
    let o0 = Set::<(Color, Piece, int)>::empty();
    lemma_letter_rank(r8, 7, 0, o0);
    let o1 = o0 + letters_from(r8, 7, 0);
    lemma_letter_rank(r7, 6, 0, o1);
    let o2 = o1 + letters_from(r7, 6, 0);
    lemma_empty_rank(e, 5, o2);
    lemma_empty_rank(e, 4, o2);
    lemma_empty_rank(e, 3, o2);
    lemma_empty_rank(e, 2, o2);
    lemma_letter_rank(r2, 1, 0, o2);
    let o3 = o2 + letters_from(r2, 1, 0);
    lemma_letter_rank(r1, 0, 0, o3);
    let o4 = o3 + letters_from(r1, 0, 0);
    assert(ranks_scan(ranks, 8, o4) == Some(Ok::<Occupancy, Seq<char>>(o4)));
    assert(ranks_scan(ranks, 7, o3) == ranks_scan(ranks, 8, o4));
    assert(ranks_scan(ranks, 6, o2) == ranks_scan(ranks, 7, o3));
    assert(ranks_scan(ranks, 5, o2) == ranks_scan(ranks, 6, o2));
    assert(ranks_scan(ranks, 4, o2) == ranks_scan(ranks, 5, o2));
    assert(ranks_scan(ranks, 3, o2) == ranks_scan(ranks, 4, o2));
    assert(ranks_scan(ranks, 2, o2) == ranks_scan(ranks, 3, o2));
    assert(ranks_scan(ranks, 1, o1) == ranks_scan(ranks, 2, o2));
    assert(ranks_scan(ranks, 0, o0) == ranks_scan(ranks, 1, o1));
    lemma_rank_contents(r8, 7, Color::Black, black_back);
    lemma_rank_contents(r7, 6, Color::Black, pawns);
    lemma_rank_contents(r2, 1, Color::White, pawns);
    lemma_rank_contents(r1, 0, Color::White, black_back);
    assert(o4 =~= start_occupancy());
}

/// Only the placement and side-to-move fields count: after them, castling
/// rights, the en-passant square and the clocks, or any other text, leave
/// what `from_fen` gives unchanged. `p` and `side` are the first two
/// fields, `w1` and `w2` the whitespace after each, `rest` anything.
pub proof fn lemma_fen_ignores_trailing_fields(
    p: Seq<char>,
    w1: char,
    side: Seq<char>,
    w2: char,
    rest: Seq<char>,
)
    requires
        no_ws(p),
        p.len() > 0,
        no_ws(side),
        side.len() > 0,
        is_ws(w1),
        is_ws(w2),
    ensures
        fen_outcome(p + seq![w1] + side + seq![w2] + rest) == fen_outcome(p + seq![w1] + side),
{
    let full = p + seq![w1] + side + seq![w2] + rest;
    let short = p + seq![w1] + side;
    assert(full =~= p + seq![w1] + (side + seq![w2] + rest));
    lemma_ws_tokens_split(p, w1, side + seq![w2] + rest);
    lemma_ws_tokens_split(side, w2, rest);
    lemma_ws_tokens_split(p, w1, side);
    lemma_ws_tokens_word(p);
    lemma_ws_tokens_word(side);
    let tf = ws_tokens(full);
    let ts = ws_tokens(short);
    assert(tf =~= seq![p] + (seq![side] + ws_tokens(rest)));
    assert(ts =~= seq![p] + seq![side]);
    assert(tf.len() >= 2 && ts.len() == 2);
    assert(tf[0] == ts[0] && tf[1] == ts[1]);
    assert(!is_startpos(full) && !is_startpos(short));
}

proof fn lemma_pawn_rows()
    ensures
        forall|s: int| bit_set(0xff00u64, s) <==> 8 <= s < 16,
        forall|s: int| bit_set(0x00ff_0000_0000_0000u64, s) <==> 48 <= s < 56,
{
    assert forall|s: int| bit_set(0xff00u64, s) <==> 8 <= s < 16 by {
        if 0 <= s < 64 {
            let t = s as u64;
            assert(((0xff00u64 >> t) & 1 == 1) <==> (8 <= t && t < 16)) by (bit_vector)
                requires
                    t < 64,
            ;
        }
    }
    assert forall|s: int| bit_set(0x00ff_0000_0000_0000u64, s) <==> 48 <= s < 56 by {
        if 0 <= s < 64 {
            let t = s as u64;
            assert(((0x00ff_0000_0000_0000u64 >> t) & 1 == 1) <==> (48 <= t && t < 56))
                by (bit_vector)
                requires
                    t < 64,
            ;
        }
    }
}

proof fn lemma_pair_bits(x: u64, a: u64, b: u64)
    requires
        a < 64,
        b < 64,
        x == (1u64 << a) | (1u64 << b),
    ensures
        forall|s: int| bit_set(x, s) <==> (s == a || s == b),
{
    assert forall|s: int| bit_set(x, s) <==> (s == a || s == b) by {
        if 0 <= s < 64 {
            let t = s as u64;
            assert(((x >> t) & 1 == 1) <==> (t == a || t == b)) by (bit_vector)
                requires
                    a < 64,
                    b < 64,
                    t < 64,
                    x == (1u64 << a) | (1u64 << b),
            ;
        }
    }
}

impl Bitboards {
    /// The standard initial position, White to move: what the standard FEN
    /// reads as (see `lemma_standard_fen_is_start`).
    pub fn starting_position() -> (r: Self)
        ensures
            r.model() == (start_occupancy(), Color::White),
    {
        let r = Self {
            boards: [
                [
                    0xff00u64,
                    0x42u64,
                    0x24u64,
                    0x81u64,
                    0x08u64,
                    0x10u64,
                ],
                [
                    0x00ff_0000_0000_0000u64,
                    0x4200_0000_0000_0000u64,
                    0x2400_0000_0000_0000u64,
                    0x8100_0000_0000_0000u64,
                    0x0800_0000_0000_0000u64,
                    0x1000_0000_0000_0000u64,
                ],
            ],
            side_to_move: Color::White,
        };
        proof {
            lemma_pawn_rows();
            assert(0x42u64 == (1u64 << 1u64) | (1u64 << 6u64)) by (bit_vector);
            lemma_pair_bits(0x42u64, 1, 6);
            assert(0x24u64 == (1u64 << 2u64) | (1u64 << 5u64)) by (bit_vector);
            lemma_pair_bits(0x24u64, 2, 5);
            assert(0x81u64 == (1u64 << 0u64) | (1u64 << 7u64)) by (bit_vector);
            lemma_pair_bits(0x81u64, 0, 7);
            assert(0x08u64 == (1u64 << 3u64) | (1u64 << 3u64)) by (bit_vector);
            lemma_pair_bits(0x08u64, 3, 3);
            assert(0x10u64 == (1u64 << 4u64) | (1u64 << 4u64)) by (bit_vector);
            lemma_pair_bits(0x10u64, 4, 4);
            assert(0x4200_0000_0000_0000u64 == (1u64 << 57u64) | (1u64 << 62u64)) by (bit_vector);
            lemma_pair_bits(0x4200_0000_0000_0000u64, 57, 62);
            assert(0x2400_0000_0000_0000u64 == (1u64 << 58u64) | (1u64 << 61u64)) by (bit_vector);
            lemma_pair_bits(0x2400_0000_0000_0000u64, 58, 61);
            assert(0x8100_0000_0000_0000u64 == (1u64 << 56u64) | (1u64 << 63u64)) by (bit_vector);
            lemma_pair_bits(0x8100_0000_0000_0000u64, 56, 63);
            assert(0x0800_0000_0000_0000u64 == (1u64 << 59u64) | (1u64 << 59u64)) by (bit_vector);
            lemma_pair_bits(0x0800_0000_0000_0000u64, 59, 59);
            assert(0x1000_0000_0000_0000u64 == (1u64 << 60u64) | (1u64 << 60u64)) by (bit_vector);
            lemma_pair_bits(0x1000_0000_0000_0000u64, 60, 60);
            assert forall|t: (Color, Piece, int)|
                r.occupied().contains(t) == start_occupancy().contains(t) by {
                let x = r.bits(t.0, t.1);
                match t.0 {
                    Color::White => match t.1 {
                        Piece::Pawn => assert(x == 0xff00u64),
                        Piece::Knight => assert(x == 0x42u64),
                        Piece::Bishop => assert(x == 0x24u64),
                        Piece::Rook => assert(x == 0x81u64),
                        Piece::Queen => assert(x == 0x08u64),
                        Piece::King => assert(x == 0x10u64),
                    },
                    Color::Black => match t.1 {
                        Piece::Pawn => assert(x == 0x00ff_0000_0000_0000u64),
                        Piece::Knight => assert(x == 0x4200_0000_0000_0000u64),
                        Piece::Bishop => assert(x == 0x2400_0000_0000_0000u64),
                        Piece::Rook => assert(x == 0x8100_0000_0000_0000u64),
                        Piece::Queen => assert(x == 0x0800_0000_0000_0000u64),
                        Piece::King => assert(x == 0x1000_0000_0000_0000u64),
                    },
                }
            }
            assert(r.occupied() =~= start_occupancy());
        }
        r
    }
}


/// Places the pieces of the FEN rank text `cs` on `rank`; `None` where the
/// file count would exceed `u8::MAX`.
fn place_rank(bb: &mut Bitboards, cs: &Vec<char>, rank: u8) -> (r: Option<Result<(), String>>)
    requires
        rank < 8,
    ensures
        final(bb).side_to_move == old(bb).side_to_move,
        match rank_scan(cs@, rank as int, 0, 0, old(bb).occupied()) {
            None => r is None,
            Some(Ok(o)) => r matches Some(Ok(_)) && final(bb).occupied() == o,
            Some(Err(e)) => r matches Some(Err(s)) && s@ == e,
        },
{
    let n = cs.len();
    let mut file: u8 = 0;
    let mut j: usize = 0;
    while j < n
        invariant
            n == cs.len(),
            j <= n,
            rank < 8,
            bb.side_to_move == old(bb).side_to_move,
            rank_scan(cs@, rank as int, 0, 0, old(bb).occupied()) == rank_scan(
                cs@,
                rank as int,
                file as int,
                j as int,
                bb.occupied(),
            ),
        decreases n - j,
    {
        let ch = cs[j];
        match to_digit(ch) {
            Some(skip) => {
                if (file as u32) + skip > 255 {
                    return None;
                }
                file = file + (skip as u8);
            },
            None => {
                if file >= 8 {
                    let mut e = string_of("FEN rank '");
                    push_chars(&mut e, cs);
                    push_str(&mut e, "' overflows 8 files");
                    return Some(Err(e));
                }
                match char_to_piece(ch) {
                    None => {
                        let mut e = string_of("FEN: unknown piece char '");
                        crate::text::push_char(&mut e, ch);
                        push_str(&mut e, "'");
                        assert(e@ =~= unknown_piece_message(ch));
                        return Some(Err(e));
                    },
                    Some((color, piece)) => {
                        bb.set(color, piece, square(file, rank));
                        file += 1;
                    },
                }
            },
        }
        j += 1;
    }
    Some(Ok(()))
}

/// Reads a FEN; `None` where a rank's file count would exceed `u8::MAX`.
fn parse_fen(fen: &str) -> (r: Option<Result<Bitboards, String>>)
    ensures
        match fen_outcome(fen@) {
            None => r is None,
            Some(Ok(m)) => r matches Some(Ok(b)) && b.model() == m,
            Some(Err(e)) => r matches Some(Err(s)) && s@ == e,
        },
{
    let chars = chars_of(fen);
    let toks = ws_split(&chars);
    let start = chars_of("startpos");
    if toks.len() == 1 && chars_equal(&toks[0], &start) {
        assert(views(toks@) =~= seq!["startpos"@]);
        return Some(Ok(Bitboards::starting_position()));
    }
    assert(!is_startpos(fen@)) by {
        if is_startpos(fen@) {
            assert(views(toks@).len() == 1);
            assert(views(toks@)[0] == toks@[0]@);
        }
    }
    if toks.len() == 0 {
        return Some(Err(string_of("empty FEN")));
    }
    assert(views(toks@)[0] == toks@[0]@);
    let ranks = split_chars(&toks[0], '/');
    if ranks.len() != 8 {
        let mut e = string_of("FEN must have 8 ranks, got ");
        push_decimal(&mut e, ranks.len() as u64);
        return Some(Err(e));
    }
    let ghost rs = views(ranks@);
    let mut bb = Bitboards::empty();
    let mut i: usize = 0;
    while i < 8
        invariant
            ranks.len() == 8,
            rs == views(ranks@),
            !is_startpos(fen@),
            ws_tokens(fen@) == views(toks@),
            toks.len() >= 1,
            rs == split_on(views(toks@)[0], '/'),
            i <= 8,
            bb.side_to_move == Color::White,
            ranks_scan(rs, 0, Set::empty()) == ranks_scan(rs, i as int, bb.occupied()),
        decreases 8 - i,
    {
        let rank = 7 - (i as u8);
        assert(rs[i as int] == ranks@[i as int]@);
        match place_rank(&mut bb, &ranks[i], rank) {
            None => return None,
            Some(Err(e)) => return Some(Err(e)),
            Some(Ok(())) => {},
        }
        i += 1;
    }
    if toks.len() >= 2 {
        assert(views(toks@)[1] == toks@[1]@);
        let side = &toks[1];
        if side.len() == 1 && side[0] == 'w' {
            assert(side@ =~= seq!['w']);
            bb.side_to_move = Color::White;
        } else if side.len() == 1 && side[0] == 'b' {
            assert(side@ =~= seq!['b']);
            assert(side@ != seq!['w']);
            bb.side_to_move = Color::Black;
        } else {
            assert(side@ != seq!['w'] && side@ != seq!['b']) by {
                if side@ == seq!['w'] || side@ == seq!['b'] {
                    assert(side@.len() == 1);
                }
            }
            let mut e = string_of("FEN: bad side-to-move '");
            push_chars(&mut e, side);
            push_str(&mut e, "'");
            return Some(Err(e));
        }
    } else {
        bb.side_to_move = Color::White;
    }
    Some(Ok(bb))
}

impl Bitboards {
    /// Parse the placement and side-to-move fields of a FEN (side to move
    /// White when the field is absent), or the literal `startpos`.
    pub fn from_fen(fen: &str) -> (r: Result<Self, String>)
        requires
            fen_outcome(fen@) is Some,
        ensures
            match fen_outcome(fen@) {
                Some(Ok(m)) => r matches Ok(b) && b.model() == m,
                Some(Err(e)) => r matches Err(s) && s@ == e,
                None => false,
            },
    {
        match parse_fen(fen) {
            Some(r) => r,
            None => {
                assert(false);
                Err(String::new())
            },
        }
    }

    /// Whether `from_fen` is defined for `fen`: false exactly when, in a rank
    /// that gets read, the digits add up to more than `u8::MAX` files.
    pub fn fen_defined(fen: &str) -> (r: bool)
        ensures
            r == (fen_outcome(fen@) is Some),
    {
        parse_fen(fen).is_some()
    }
}


proof fn lemma_rank_scan_well_formed(cs: Seq<char>, rank: int, file: int, i: int, occ: Occupancy)
    requires
        0 <= rank < 8,
        0 <= file,
        0 <= i,
        well_formed(occ),
        on_board(occ),
        forall|t: (Color, Piece, int)| #[trigger]
            occ.contains(t) ==> t.2 >= rank * 8 + 8 || (rank * 8 <= t.2 < rank * 8 + file),
    ensures
        rank_scan(cs, rank, file, i, occ) matches Some(Ok(o)) ==> well_formed(o) && on_board(o)
            && forall|t: (Color, Piece, int)| #[trigger] o.contains(t) ==> t.2 >= rank * 8,
    decreases cs.len() - i,
{
    if i < cs.len() {
        let ch = cs[i];
        match digit_of(ch) {
            Some(d) => {
                if file + d <= 255 {
                    lemma_rank_scan_well_formed(cs, rank, file + d, i + 1, occ);
                }
            },
            None => {
                if file < 8 {
                    match piece_of_char(ch) {
                        None => {},
                        Some((c, p)) => {
                            let sq = rank * 8 + file;
                            let o2 = occ.insert((c, p, sq));
                            assert forall|c1: Color, p1: Piece| !occ.contains((c1, p1, sq)) by {
                                if occ.contains((c1, p1, sq)) {
                                    assert(sq >= rank * 8 + 8 || sq < rank * 8 + file);
                                }
                            }
                            assert(well_formed(o2)) by {
                                assert forall|c1: Color, p1: Piece, c2: Color, p2: Piece, x: int|
                                    #[trigger] o2.contains((c1, p1, x)) && #[trigger] o2.contains(
                                        (c2, p2, x),
                                    ) implies c1 == c2 && p1 == p2 by {
                                    if x != sq {
                                        assert(occ.contains((c1, p1, x)) && occ.contains(
                                            (c2, p2, x),
                                        ));
                                    }
                                }
                            }
                            lemma_rank_scan_well_formed(cs, rank, file + 1, i + 1, o2);
                        },
                    }
                }
            },
        }
    }
}

proof fn lemma_ranks_scan_well_formed(ranks: Seq<Seq<char>>, i: int, occ: Occupancy)
    requires
        0 <= i <= 8,
        well_formed(occ),
        on_board(occ),
        forall|t: (Color, Piece, int)| #[trigger] occ.contains(t) ==> t.2 >= (8 - i) * 8,
    ensures
        ranks_scan(ranks, i, occ) matches Some(Ok(o)) ==> well_formed(o) && on_board(o),
    decreases 8 - i,
{
    if i < 8 {
        lemma_rank_scan_well_formed(ranks[i], 7 - i, 0, 0, occ);
        match rank_scan(ranks[i], 7 - i, 0, 0, occ) {
            Some(Ok(o2)) => lemma_ranks_scan_well_formed(ranks, i + 1, o2),
            _ => {},
        }
    }
}

/// Every position read from a FEN has at most one piece per square, all of
/// them on the board.
pub proof fn lemma_fen_well_formed(s: Seq<char>)
    ensures
        fen_outcome(s) matches Some(Ok(m)) ==> well_formed(m.0) && on_board(m.0),
{
    if is_startpos(s) {
        let occ = start_occupancy();
        assert(well_formed(occ));
    } else {
        let toks = ws_tokens(s);
        if toks.len() > 0 {
            let ranks = split_on(toks[0], '/');
            let e = Set::<(Color, Piece, int)>::empty();
            assert(well_formed(e));
            lemma_ranks_scan_well_formed(ranks, 0, e);
        }
    }
}

} // verus!
