//! Where the board draws things: each square's place on screen, the piece
//! sprite inside it, and the shapes of the two highlights. The board is
//! seen from White's side (rank 8 at the top) or, flipped, from Black's.

use crate::events::{Rectangle, Square};
use crate::events::rect_contains;
use crate::widgets::{on_board_square, square_color, touched_square, BoardWidget, DrawColor, SQUARE_SIZE};
use vstd::prelude::*;

verus! {

/// Size a piece sprite is drawn at, centred in its square.
pub const PIECE_DRAW_SIZE: u16 = 96;

/// Length of a highlight arm: an eighth of a square.
pub const SEGMENT_LEN: i16 = 16;

/// Line width of the selection's corner cuts.
pub const SELECTION_STROKE: u16 = 4;

/// Thickness of the last-move brackets.
pub const LAST_MOVE_STROKE: i16 = 6;

/// Top-left corner on screen of square (`file`, `rank`) of a board drawn
/// over `area`.
pub open spec fn square_origin(area: Rectangle, flipped: bool, file: int, rank: int) -> (int, int) {
    let df = if flipped {
        7 - file
    } else {
        file
    };
    let dr = if flipped {
        7 - rank
    } else {
        rank
    };
    (area.x + df * 134, area.y + (7 - dr) * 134)
}

/// The four corner cuts of the selection on a square whose top-left corner
/// is (`x`, `y`): from each corner, a segment toward the centre.
pub open spec fn cut_lines(x: int, y: int) -> Seq<(i16, i16, i16, i16)> {
    let s = 134int;
    let l = 16int;
    seq![
        (x as i16, y as i16, (x + l) as i16, (y + l) as i16),
        ((x + s) as i16, y as i16, (x + s - l) as i16, (y + l) as i16),
        ((x + s) as i16, (y + s) as i16, (x + s - l) as i16, (y + s - l) as i16),
        (x as i16, (y + s) as i16, (x + l) as i16, (y + s - l) as i16),
    ]
}

/// A filled rectangle at (`x`, `y`) of the given size.
pub open spec fn rect_at(x: int, y: int, w: int, h: int) -> Rectangle {
    Rectangle { x: x as i16, y: y as i16, width: w as u16, height: h as u16 }
}

/// The last-move brackets on a square whose top-left corner is (`x`,
/// `y`): at each corner a horizontal and a vertical arm running inward
/// along the edges.
pub open spec fn bracket_rects(x: int, y: int) -> Seq<Rectangle> {
    let s = 134int;
    let l = 16int;
    let t = 6int;
    seq![
        rect_at(x, y, l, t),
        rect_at(x, y, t, l),
        rect_at(x + s - l, y, l, t),
        rect_at(x + s - t, y, t, l),
        rect_at(x + s - l, y + s - t, l, t),
        rect_at(x + s - t, y + s - l, t, l),
        rect_at(x, y + s - t, l, t),
        rect_at(x, y + s - l, t, l),
    ]
}

/// Touch and drawing agree: a touch anywhere inside the square drawn for
/// `sq` (flipped or not) is taken as a touch on `sq`.
pub proof fn lemma_touch_lands_on_drawn_square(area: Rectangle, flipped: bool, sq: Square, x: i16, y: i16)
    requires
        area.width == 1072,
        area.height == 1072,
        area.x + 1072 <= i16::MAX,
        area.y + 1072 <= i16::MAX,
        on_board_square(sq),
        square_origin(area, flipped, sq.file as int, sq.rank as int).0 <= x
            < square_origin(area, flipped, sq.file as int, sq.rank as int).0 + 134,
        square_origin(area, flipped, sq.file as int, sq.rank as int).1 <= y
            < square_origin(area, flipped, sq.file as int, sq.rank as int).1 + 134,
    ensures
        touched_square(area, flipped, x, y) == Some(sq),
{
    let df: int = if flipped {
        7 - sq.file
    } else {
        sq.file as int
    };
    let dr: int = if flipped {
        7 - sq.rank
    } else {
        sq.rank as int
    };
    let dx = x - area.x;
    let dy = y - area.y;
    assert(df * 134 <= dx < df * 134 + 134);
    assert(dx / 134 == df) by (nonlinear_arith)
        requires
            0 <= df < 8,
            df * 134 <= dx < df * 134 + 134,
    ;
    assert((7 - dr) * 134 <= dy < (7 - dr) * 134 + 134);
    assert(dy / 134 == 7 - dr) by (nonlinear_arith)
        requires
            0 <= 7 - dr < 8,
            (7 - dr) * 134 <= dy < (7 - dr) * 134 + 134,
    ;
    assert(rect_contains(area, x, y));
}

/// The colour a square is painted: dark when file + rank is even.
pub fn square_background(sq: u8) -> (r: DrawColor)
    requires
        sq < 64,
    ensures
        r == square_color((sq % 8) as int, (sq / 8) as int),
{
    if (sq % 8 + sq / 8) % 2 == 0 {
        DrawColor::DarkGray
    } else {
        DrawColor::LightGray
    }
}

impl BoardWidget {
    /// Every square of the board has `i16` screen coordinates.
    pub open spec fn layout_fits(self) -> bool {
        self.area.x + 1072 <= i16::MAX && self.area.y + 1072 <= i16::MAX
    }

    fn origin(&self, file: u8, rank: u8) -> (r: (i16, i16))
        requires
            self.layout_fits(),
            file < 8,
            rank < 8,
        ensures
            r.0 == square_origin(self.area, self.flipped, file as int, rank as int).0,
            r.1 == square_origin(self.area, self.flipped, file as int, rank as int).1,
    {
        let display_file = if self.flipped {
            7 - file
        } else {
            file
        };
        let display_rank = if self.flipped {
            7 - rank
        } else {
            rank
        };
        let size = SQUARE_SIZE as i16;
        assert(size == 134);
        let x = self.area.x + (display_file as i16) * size;
        let y = self.area.y + (7 - display_rank as i16) * size;
        (x, y)
    }

    /// The screen rectangle of square `sq` (0 is a1, 63 is h8).
    pub fn square_rect(&self, sq: u8) -> (r: Rectangle)
        requires
            self.layout_fits(),
            sq < 64,
        ensures
            ({
                let (x, y) = square_origin(self.area, self.flipped, (sq % 8) as int, (sq / 8) as int);
                r == rect_at(x, y, 134, 134)
            }),
    {
        let (x, y) = self.origin(sq % 8, sq / 8);
        Rectangle { x, y, width: SQUARE_SIZE, height: SQUARE_SIZE }
    }

    /// Where the sprite of a piece on `sq` is drawn: centred in the square.
    pub fn piece_origin(&self, sq: u8) -> (r: (i16, i16))
        requires
            self.layout_fits(),
            sq < 64,
        ensures
            ({
                let (x, y) = square_origin(self.area, self.flipped, (sq % 8) as int, (sq / 8) as int);
                r.0 == x + 19 && r.1 == y + 19
            }),
    {
        let (x, y) = self.origin(sq % 8, sq / 8);
        let inset = ((SQUARE_SIZE - PIECE_DRAW_SIZE) / 2) as i16;
        (x + inset, y + inset)
    }

    /// The selection's corner cuts on `sq`, as line end points.
    pub fn selection_cuts(&self, sq: Square) -> (r: Vec<(i16, i16, i16, i16)>)
        requires
            self.layout_fits(),
            on_board_square(sq),
        ensures
            ({
                let (x, y) = square_origin(self.area, self.flipped, sq.file as int, sq.rank as int);
                r@ == cut_lines(x, y)
            }),
    {
        let (x, y) = self.origin(sq.file, sq.rank);
        let s = SQUARE_SIZE as i16;
        let l = SEGMENT_LEN;
        let mut r: Vec<(i16, i16, i16, i16)> = Vec::new();
        r.push((x, y, x + l, y + l));
        r.push((x + s, y, x + s - l, y + l));
        r.push((x + s, y + s, x + s - l, y + s - l));
        r.push((x, y + s, x + l, y + s - l));
        assert(r@ =~= cut_lines(x as int, y as int));
        r
    }

    /// The last-move brackets on `sq`, as filled rectangles.
    pub fn last_move_arms(&self, sq: u8) -> (r: Vec<Rectangle>)
        requires
            self.layout_fits(),
            sq < 64,
        ensures
            ({
                let (x, y) = square_origin(self.area, self.flipped, (sq % 8) as int, (sq / 8) as int);
                r@ == bracket_rects(x, y)
            }),
    {
        let (x, y) = self.origin(sq % 8, sq / 8);
        let s = SQUARE_SIZE as i16;
        let l = SEGMENT_LEN;
        let t = LAST_MOVE_STROKE;
        let lw = l as u16;
        let tw = t as u16;
        let mut r: Vec<Rectangle> = Vec::new();
        r.push(Rectangle { x, y, width: lw, height: tw });
        r.push(Rectangle { x, y, width: tw, height: lw });
        r.push(Rectangle { x: x + s - l, y, width: lw, height: tw });
        r.push(Rectangle { x: x + s - t, y, width: tw, height: lw });
        r.push(Rectangle { x: x + s - l, y: y + s - t, width: lw, height: tw });
        r.push(Rectangle { x: x + s - t, y: y + s - l, width: tw, height: lw });
        r.push(Rectangle { x, y: y + s - t, width: lw, height: tw });
        r.push(Rectangle { x, y: y + s - l, width: tw, height: lw });
        assert(r@ =~= bracket_rects(x as int, y as int));
        r
    }
}

} // verus!
