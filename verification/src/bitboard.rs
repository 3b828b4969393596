//! Twelve-bitboard chess position.
//!
//! One `u64` per (colour, piece) pair. Squares are numbered a1 = 0, b1 = 1,
//! ..., h8 = 63 (`square = rank * 8 + file`, rank 0 being White's first rank),
//! and the bit for square `s` is `1u64 << s`.
//!
//! The model of a position is the set of occupied `(colour, piece, square)`
//! triples, `Bitboards::occupied`, together with `side_to_move`.

use vstd::prelude::*;

verus! {

#[derive(Debug, Clone, Copy, PartialEq, Eq, Hash, Structural)]
pub enum Color {
    White,
    Black,
}

/// The other colour.
pub open spec fn opposite(c: Color) -> Color {
    match c {
        Color::White => Color::Black,
        Color::Black => Color::White,
    }
}

impl Color {
    pub fn flip(self) -> (r: Color)
        ensures
            r == opposite(self),
    {
        match self {
            Color::White => Color::Black,
            Color::Black => Color::White,
        }
    }
}

#[derive(Debug, Clone, Copy, PartialEq, Eq, Hash, Structural)]
pub enum Piece {
    Pawn,
    Knight,
    Bishop,
    Rook,
    Queen,
    King,
}

/// Row of `Bitboards::boards` that holds colour `c`.
pub open spec fn color_index(c: Color) -> int {
    match c {
        Color::White => 0,
        Color::Black => 1,
    }
}

/// Column of `Bitboards::boards` that holds piece `p`.
pub open spec fn piece_index(p: Piece) -> int {
    match p {
        Piece::Pawn => 0,
        Piece::Knight => 1,
        Piece::Bishop => 2,
        Piece::Rook => 3,
        Piece::Queen => 4,
        Piece::King => 5,
    }
}

fn idx_color(c: Color) -> (r: usize)
    ensures
        r == color_index(c),
{
    match c {
        Color::White => 0,
        Color::Black => 1,
    }
}

fn idx_piece(p: Piece) -> (r: usize)
    ensures
        r == piece_index(p),
{
    match p {
        Piece::Pawn => 0,
        Piece::Knight => 1,
        Piece::Bishop => 2,
        Piece::Rook => 3,
        Piece::Queen => 4,
        Piece::King => 5,
    }
}

/// The (colour, piece) pair scanned `k`-th by `piece_at`: White before Black,
/// and pawn, knight, bishop, rook, queen, king within a colour.
pub open spec fn slot_color(k: int) -> Color {
    if k < 6 {
        Color::White
    } else {
        Color::Black
    }
}

pub open spec fn slot_piece(k: int) -> Piece {
    let j = k % 6;
    if j == 0 {
        Piece::Pawn
    } else if j == 1 {
        Piece::Knight
    } else if j == 2 {
        Piece::Bishop
    } else if j == 3 {
        Piece::Rook
    } else if j == 4 {
        Piece::Queen
    } else {
        Piece::King
    }
}

fn slot(k: usize) -> (r: (Color, Piece))
    requires
        k < 12,
    ensures
        r == (slot_color(k as int), slot_piece(k as int)),
{
    let c = if k < 6 {
        Color::White
    } else {
        Color::Black
    };
    let j = k % 6;
    let p = if j == 0 {
        Piece::Pawn
    } else if j == 1 {
        Piece::Knight
    } else if j == 2 {
        Piece::Bishop
    } else if j == 3 {
        Piece::Rook
    } else if j == 4 {
        Piece::Queen
    } else {
        Piece::King
    };
    (c, p)
}

/// Whether bit `s` (0..64) of `x` is set.
pub open spec fn bit_set(x: u64, s: int) -> bool {
    0 <= s < 64 && (x >> (s as u64)) & 1 == 1
}

pub proof fn lemma_mask_test(x: u64, s: u64)
    requires
        s < 64,
    ensures
        (x & (1u64 << s) != 0) == ((x >> s) & 1 == 1),
{
    assert((x & (1u64 << s) != 0) == ((x >> s) & 1 == 1)) by (bit_vector)
        requires
            s < 64,
    ;
}

pub proof fn lemma_or_bit(x: u64, s0: u64, s: u64)
    requires
        s0 < 64,
        s < 64,
    ensures
        (((x | (1u64 << s0)) >> s) & 1 == 1) == (((x >> s) & 1 == 1) || s == s0),
{
    assert((((x | (1u64 << s0)) >> s) & 1 == 1) == (((x >> s) & 1 == 1) || s == s0))
        by (bit_vector)
        requires
            s0 < 64,
            s < 64,
    ;
}

pub proof fn lemma_and_not_bit(x: u64, s0: u64, s: u64)
    requires
        s0 < 64,
        s < 64,
    ensures
        (((x & !(1u64 << s0)) >> s) & 1 == 1) == (((x >> s) & 1 == 1) && s != s0),
{
    assert((((x & !(1u64 << s0)) >> s) & 1 == 1) == (((x >> s) & 1 == 1) && s != s0))
        by (bit_vector)
        requires
            s0 < 64,
            s < 64,
    ;
}

pub proof fn lemma_single_bit(s0: u64, s: u64)
    requires
        s0 < 64,
        s < 64,
    ensures
        (((1u64 << s0) >> s) & 1 == 1) == (s == s0),
{
    assert((((1u64 << s0) >> s) & 1 == 1) == (s == s0)) by (bit_vector)
        requires
            s0 < 64,
            s < 64,
    ;
}

/// Square index of (`file`, `rank`).
pub fn square(file: u8, rank: u8) -> (r: u8)
    requires
        rank * 8 + file <= u8::MAX,
    ensures
        r == rank * 8 + file,
{
    rank * 8 + file
}

/// The bitboard holding square `sq` alone.
pub fn bit(sq: u8) -> (r: u64)
    requires
        sq < 64,
    ensures
        r == 1u64 << sq,
        forall|s: int| bit_set(r, s) <==> s == sq,
{
    let r = 1u64 << sq;
    proof {
        assert forall|s: int| bit_set(r, s) <==> s == sq by {
            if 0 <= s < 64 {
                lemma_single_bit(sq as u64, s as u64);
            }
        }
    }
    r
}

#[derive(Debug, Clone, Copy)]
pub struct Bitboards {
    // [Color][Piece] -> bitboard, indexed by `color_index` / `piece_index`.
    pub boards: [[u64; 6]; 2],
    pub side_to_move: Color,
}

/// A set of occupied (colour, piece, square) triples.
pub type Occupancy = Set<(Color, Piece, int)>;

/// What `piece_at` reports for square `s`: the first (colour, piece) pair,
/// in scan order from slot `k` on, that occupies `s`.
pub open spec fn first_occupant(occ: Occupancy, s: int, k: int) -> Option<(Color, Piece)>
    decreases 12 - k,
{
    if k < 0 || k >= 12 {
        None
    } else if occ.contains((slot_color(k), slot_piece(k), s)) {
        Some((slot_color(k), slot_piece(k)))
    } else {
        first_occupant(occ, s, k + 1)
    }
}

/// The piece standing on square `s`, the first one in scan order if the
/// position (unusually) holds several there.
pub open spec fn occupant(occ: Occupancy, s: int) -> Option<(Color, Piece)> {
    first_occupant(occ, s, 0)
}

/// No square holds more than one piece.
pub open spec fn well_formed(occ: Occupancy) -> bool {
    forall|c1: Color, p1: Piece, c2: Color, p2: Piece, s: int|
        #[trigger] occ.contains((c1, p1, s)) && #[trigger] occ.contains((c2, p2, s)) ==> c1 == c2
            && p1 == p2
}

/// Every occupied triple names a square of the board.
pub open spec fn on_board(occ: Occupancy) -> bool {
    forall|t: (Color, Piece, int)| #[trigger] occ.contains(t) ==> 0 <= t.2 < 64
}



/// The empty bitboard has no bit set.
pub proof fn lemma_zero_bits()
    ensures
        forall|s: int| !bit_set(0u64, s),
{
    assert forall|s: int| !bit_set(0u64, s) by {
        if 0 <= s < 64 {
            let t = s as u64;
            assert((0u64 >> t) & 1 == 0) by (bit_vector);
        }
    }
}


/// Bitwise operators act bit by bit.
pub proof fn lemma_bitwise(a: u64, b: u64)
    ensures
        forall|s: int| bit_set(a | b, s) <==> bit_set(a, s) || bit_set(b, s),
        forall|s: int| bit_set(a & b, s) <==> bit_set(a, s) && bit_set(b, s),
        forall|s: int| 0 <= s < 64 ==> (bit_set(a & !b, s) <==> bit_set(a, s) && !bit_set(b, s)),
        a == 0 ==> forall|s: int| !bit_set(a, s),
{
    assert forall|s: int| bit_set(a | b, s) <==> bit_set(a, s) || bit_set(b, s) by {
        if 0 <= s < 64 {
            let t = s as u64;
            assert((((a | b) >> t) & 1 == 1) <==> (((a >> t) & 1 == 1) || ((b >> t) & 1 == 1)))
                by (bit_vector);
        }
    }
    assert forall|s: int| bit_set(a & b, s) <==> bit_set(a, s) && bit_set(b, s) by {
        if 0 <= s < 64 {
            let t = s as u64;
            assert((((a & b) >> t) & 1 == 1) <==> (((a >> t) & 1 == 1) && ((b >> t) & 1 == 1)))
                by (bit_vector);
        }
    }
    assert forall|s: int| 0 <= s < 64 implies (bit_set(a & !b, s) <==> bit_set(a, s) && !bit_set(
        b,
        s,
    )) by {
        let t = s as u64;
        assert((((a & !b) >> t) & 1 == 1) <==> (((a >> t) & 1 == 1) && !((b >> t) & 1 == 1)))
            by (bit_vector)
            requires
                t < 64,
        ;
    }
    lemma_zero_bits();
}

/// Whether two square contents are the same.
pub fn same_occupant(x: Option<(Color, Piece)>, y: Option<(Color, Piece)>) -> (r: bool)
    ensures
        r == (x == y),
{
    match (x, y) {
        (None, None) => true,
        (Some((c1, p1)), Some((c2, p2))) => c1 == c2 && p1 == p2,
        _ => false,
    }
}

/// Flipping a colour twice gives it back.
pub proof fn lemma_flip_involutive(c: Color)
    ensures
        opposite(opposite(c)) == c,
        opposite(c) != c,
{
}

/// `square` numbers the 64 squares one to one: file and rank are read back
/// by `% 8` and `/ 8`.
pub proof fn lemma_square_coordinates(file: int, rank: int)
    requires
        0 <= file < 8,
        0 <= rank < 8,
    ensures
        0 <= rank * 8 + file < 64,
        (rank * 8 + file) % 8 == file,
        (rank * 8 + file) / 8 == rank,
{
}

/// Distinct squares have disjoint bits.
pub proof fn lemma_bits_distinct(a: u8, b: u8)
    requires
        a < 64,
        b < 64,
        a != b,
    ensures
        (1u64 << a) & (1u64 << b) == 0,
{
    assert((1u64 << a) & (1u64 << b) == 0) by (bit_vector)
        requires
            a < 64,
            b < 64,
            a != b,
    ;
}

proof fn lemma_first_occupant_unique(occ: Occupancy, s: int, c: Color, p: Piece, k: int)
    requires
        occ.contains((c, p, s)),
        forall|c2: Color, p2: Piece| #[trigger] occ.contains((c2, p2, s)) ==> c2 == c && p2 == p,
        0 <= k <= color_index(c) * 6 + piece_index(p),
    ensures
        first_occupant(occ, s, k) == Some((c, p)),
    decreases color_index(c) * 6 + piece_index(p) - k,
{
    let idx = color_index(c) * 6 + piece_index(p);
    assert(slot_color(idx) == c && slot_piece(idx) == p);
    if k < idx {
        if occ.contains((slot_color(k), slot_piece(k), s)) {
            assert(slot_color(k) == c && slot_piece(k) == p);
            assert(false);
        }
        lemma_first_occupant_unique(occ, s, c, p, k + 1);
    }
}

proof fn lemma_first_occupant_none(occ: Occupancy, s: int, k: int)
    requires
        forall|c2: Color, p2: Piece| !(#[trigger] occ.contains((c2, p2, s))),
        0 <= k <= 12,
    ensures
        first_occupant(occ, s, k) is None,
    decreases 12 - k,
{
    if k < 12 {
        lemma_first_occupant_none(occ, s, k + 1);
    }
}

proof fn lemma_first_occupant_found(occ: Occupancy, s: int, k: int)
    requires
        0 <= k <= 12,
    ensures
        first_occupant(occ, s, k) matches Some((c, p)) ==> occ.contains((c, p, s)),
        first_occupant(occ, s, k) is None ==> forall|j: int|
            k <= j < 12 ==> !occ.contains((slot_color(j), slot_piece(j), s)),
    decreases 12 - k,
{
    if k < 12 {
        lemma_first_occupant_found(occ, s, k + 1);
    }
}

/// The piece `occupant` reports is one that stands on the square, and it
/// reports none only for an empty square.
pub proof fn lemma_occupant_sound(occ: Occupancy, s: int)
    ensures
        occupant(occ, s) matches Some((c, p)) ==> occ.contains((c, p, s)),
        occupant(occ, s) is None <==> forall|c: Color, p: Piece| !occ.contains((c, p, s)),
{
    lemma_first_occupant_found(occ, s, 0);
    if occupant(occ, s) is None {
        assert forall|c: Color, p: Piece| !occ.contains((c, p, s)) by {
            let j = color_index(c) * 6 + piece_index(p);
            assert(slot_color(j) == c && slot_piece(j) == p);
        }
    } else {
        if forall|c: Color, p: Piece| !(#[trigger] occ.contains((c, p, s))) {
            lemma_first_occupant_none(occ, s, 0);
        }
    }
}

/// A piece that stands alone on its square is the one `occupant` reports.
pub proof fn lemma_occupant_unique(occ: Occupancy, s: int, c: Color, p: Piece)
    requires
        occ.contains((c, p, s)),
        forall|c2: Color, p2: Piece| #[trigger] occ.contains((c2, p2, s)) ==> c2 == c && p2 == p,
    ensures
        occupant(occ, s) == Some((c, p)),
{
    lemma_first_occupant_unique(occ, s, c, p, 0);
}

/// In a well-formed position, `occupant` reports exactly the piece that
/// stands on the square: `piece_at(sq) == Some((c, p))` iff a `c` `p` is on
/// `sq`.
pub proof fn lemma_occupant_well_formed(occ: Occupancy, s: int, c: Color, p: Piece)
    requires
        well_formed(occ),
    ensures
        occupant(occ, s) == Some((c, p)) <==> occ.contains((c, p, s)),
{
    lemma_occupant_sound(occ, s);
    if occ.contains((c, p, s)) {
        assert forall|c2: Color, p2: Piece| #[trigger] occ.contains((c2, p2, s)) implies c2 == c
            && p2 == p by {
            assert(occ.contains((c, p, s)) && occ.contains((c2, p2, s)));
        }
        lemma_occupant_unique(occ, s, c, p);
    }
}

impl Bitboards {
    /// The bitboard of colour `c` and piece `p`.
    pub open spec fn bits(self, c: Color, p: Piece) -> u64 {
        self.boards[color_index(c)][piece_index(p)]
    }

    /// The occupied (colour, piece, square) triples of this position.
    pub open spec fn occupied(self) -> Occupancy {
        Set::new(|t: (Color, Piece, int)| bit_set(self.bits(t.0, t.1), t.2))
    }

    pub fn empty() -> (r: Self)
        ensures
            r.occupied() == Set::<(Color, Piece, int)>::empty(),
            r.side_to_move == Color::White,
    {
        let r = Self { boards: [[0u64; 6]; 2], side_to_move: Color::White };
        proof {
            assert forall|t: (Color, Piece, int)| !r.occupied().contains(t) by {
                assert(r.boards[color_index(t.0)][piece_index(t.1)] == 0);
                if 0 <= t.2 < 64 {
                    let s = t.2 as u64;
                    assert((0u64 >> s) & 1 == 0) by (bit_vector);
                }
            }
            assert(r.occupied() =~= Set::<(Color, Piece, int)>::empty());
        }
        r
    }

    /// Look up which (colour, piece) sits on `sq`, or None for an empty square.
    pub fn piece_at(&self, sq: u8) -> (r: Option<(Color, Piece)>)
        requires
            sq < 64,
        ensures
            r == occupant(self.occupied(), sq as int),
    {
        let mask = bit(sq);
        let mut k: usize = 0;
        while k < 12
            invariant
                k <= 12,
                sq < 64,
                mask == 1u64 << sq,
                occupant(self.occupied(), sq as int) == first_occupant(
                    self.occupied(),
                    sq as int,
                    k as int,
                ),
            decreases 12 - k,
        {
            let (c, p) = slot(k);
            let x = self.boards[idx_color(c)][idx_piece(p)];
            proof {
                lemma_mask_test(x, sq as u64);
                assert(x == self.bits(c, p));
            }
            if x & mask != 0 {
                return Some((c, p));
            }
            k += 1;
        }
        None
    }

    /// The bitboard of `color`'s `piece`s.
    pub fn board(&self, color: Color, piece: Piece) -> (r: u64)
        ensures
            r == self.bits(color, piece),
    {
        self.boards[idx_color(color)][idx_piece(piece)]
    }

    /// Replace the bitboard of (`color`, `piece`) by `v`.
    fn put(&mut self, color: Color, piece: Piece, v: u64)
        ensures
            final(self).side_to_move == old(self).side_to_move,
            final(self).bits(color, piece) == v,
            forall|c: Color, p: Piece|
                !(c == color && p == piece) ==> #[trigger] final(self).bits(c, p) == old(
                    self,
                ).bits(c, p),
    {
        let ci = idx_color(color);
        let pi = idx_piece(piece);
        self.boards[ci][pi] = v;
        proof {
            assert forall|c: Color, p: Piece|
                !(c == color && p == piece) implies #[trigger] self.bits(c, p) == old(self).bits(
                c,
                p,
            ) by {
                if c != color {
                    assert(color_index(c) != color_index(color));
                } else {
                    assert(piece_index(p) != piece_index(piece));
                }
            }
        }
    }

    /// Put a `color` `piece` on `sq`.
    pub(crate) fn set(&mut self, color: Color, piece: Piece, sq: u8)
        requires
            sq < 64,
        ensures
            final(self).occupied() == old(self).occupied().insert((color, piece, sq as int)),
            final(self).side_to_move == old(self).side_to_move,
    {
        let x = self.boards[idx_color(color)][idx_piece(piece)];
        let m = bit(sq);
        self.put(color, piece, x | m);
        proof {
            assert forall|t: (Color, Piece, int)|
                self.occupied().contains(t) == old(self).occupied().insert(
                    (color, piece, sq as int),
                ).contains(t) by {
                if t.0 == color && t.1 == piece && 0 <= t.2 < 64 {
                    lemma_or_bit(x, sq as u64, t.2 as u64);
                }
            }
            assert(self.occupied() =~= old(self).occupied().insert((color, piece, sq as int)));
        }
    }

    /// Take a `color` `piece` off `sq` (if one is there).
    pub(crate) fn clear(&mut self, color: Color, piece: Piece, sq: u8)
        requires
            sq < 64,
        ensures
            final(self).occupied() == old(self).occupied().remove((color, piece, sq as int)),
            final(self).side_to_move == old(self).side_to_move,
    {
        let x = self.boards[idx_color(color)][idx_piece(piece)];
        let m = bit(sq);
        self.put(color, piece, x & !m);
        proof {
            assert forall|t: (Color, Piece, int)|
                self.occupied().contains(t) == old(self).occupied().remove(
                    (color, piece, sq as int),
                ).contains(t) by {
                if t.0 == color && t.1 == piece && 0 <= t.2 < 64 {
                    lemma_and_not_bit(x, sq as u64, t.2 as u64);
                }
            }
            assert(self.occupied() =~= old(self).occupied().remove((color, piece, sq as int)));
        }
    }

    /// Clear whatever piece happens to occupy `sq` from any board. Used by
    /// captures where we don't know the captured piece type up front.
    pub(crate) fn clear_any(&mut self, sq: u8)
        requires
            sq < 64,
        ensures
            final(self).occupied() == old(self).occupied().filter(
                |t: (Color, Piece, int)| t.2 != sq,
            ),
            final(self).side_to_move == old(self).side_to_move,
    {
        let mask = !bit(sq);
        let mut k: usize = 0;
        while k < 12
            invariant
                k <= 12,
                sq < 64,
                mask == !(1u64 << sq),
                self.side_to_move == old(self).side_to_move,
                forall|j: int|
                    0 <= j < 12 ==> #[trigger] self.bits(slot_color(j), slot_piece(j)) == if j
                        < k {
                        old(self).bits(slot_color(j), slot_piece(j)) & mask
                    } else {
                        old(self).bits(slot_color(j), slot_piece(j))
                    },
            decreases 12 - k,
        {
            let (c, p) = slot(k);
            let ghost pre = *self;
            let x = self.boards[idx_color(c)][idx_piece(p)];
            self.put(c, p, x & mask);
            proof {
                assert forall|j: int| 0 <= j < 12 implies #[trigger] self.bits(
                    slot_color(j),
                    slot_piece(j),
                ) == if j < k + 1 {
                    old(self).bits(slot_color(j), slot_piece(j)) & mask
                } else {
                    old(self).bits(slot_color(j), slot_piece(j))
                } by {
                    assert(pre.bits(slot_color(j), slot_piece(j)) == if j < k {
                        old(self).bits(slot_color(j), slot_piece(j)) & mask
                    } else {
                        old(self).bits(slot_color(j), slot_piece(j))
                    });
                    if j != k {
                        assert(j % 6 != k as int % 6 || (j < 6) != (k < 6));
                        assert(!(slot_color(j) == c && slot_piece(j) == p));
                    }
                }
            }
            k += 1;
        }
        proof {
            assert forall|t: (Color, Piece, int)|
                self.occupied().contains(t) == old(self).occupied().filter(
                    |t: (Color, Piece, int)| t.2 != sq,
                ).contains(t) by {
                let j = color_index(t.0) * 6 + piece_index(t.1);
                assert(slot_color(j) == t.0 && slot_piece(j) == t.1);
                if 0 <= t.2 < 64 {
                    lemma_and_not_bit(old(self).bits(t.0, t.1), sq as u64, t.2 as u64);
                }
            }
            assert(self.occupied() =~= old(self).occupied().filter(
                |t: (Color, Piece, int)| t.2 != sq,
            ));
        }
    }
}

} // verus!
