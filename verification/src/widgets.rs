//! The state and decisions of the on-screen widgets: buttons, the chess
//! board, and the two sidebars. Drawing is left to the application, which
//! follows the paint plans these widgets produce.

use crate::bitboard::{
    bit_set, lemma_bitwise, lemma_mask_test, occupant, same_occupant, Bitboards, Color, Piece,
};
use crate::events::{
    algebraic, rect_contains, rect_fits, AppEvent, ChessMove, Rectangle, RectangleExt, Square,
    TouchEvent, TouchKind,
};
use crate::text::{decimal, digit_char, push_str, string_of};
use vstd::prelude::*;

verus! {

/// The greyscale levels the renderer paints with.
#[derive(Debug, Clone, Copy, PartialEq, Eq, Structural)]
pub enum DrawColor {
    Black,
    DarkGray,
    Gray,
    LightGray,
    White,
}

/// Edge of a board square in pixels (1072 / 8).
pub const SQUARE_SIZE: u16 = 134;

/// Footprint of an icon button: one chess cell.
pub const ICON_BUTTON_SIZE: u16 = 134;

/// Default size the icon glyph is drawn at, centred in the footprint.
pub const ICON_GLYPH_SIZE: u16 = 100;

/// Square colour: a1 and every square of even file + rank are dark.
pub open spec fn square_color(file: int, rank: int) -> DrawColor {
    if (file + rank) % 2 == 0 {
        DrawColor::DarkGray
    } else {
        DrawColor::LightGray
    }
}

/// Corner decorations contrast with their square: light on dark squares,
/// black on light ones.
pub open spec fn highlight_color_of(file: int, rank: int) -> DrawColor {
    if (file + rank) % 2 == 0 {
        DrawColor::LightGray
    } else {
        DrawColor::Black
    }
}

pub fn highlight_color(file: u8, rank: u8) -> (r: DrawColor)
    requires
        file + rank <= u8::MAX,
    ensures
        r == highlight_color_of(file as int, rank as int),
{
    if (file + rank) % 2 == 0 {
        DrawColor::LightGray
    } else {
        DrawColor::Black
    }
}

pub fn square_to_index(sq: Square) -> (r: u8)
    requires
        sq.rank * 8 + sq.file <= u8::MAX,
    ensures
        r == sq.rank * 8 + sq.file,
{
    sq.rank * 8 + sq.file
}

/// A rectangle with a centred label. The label is drawn at `font_px`
/// pixels; `outlined` buttons get a border.
#[derive(Debug, Clone)]
pub struct Button {
    pub rect: Rectangle,
    pub label: String,
    pub font_px: u16,
    pub outlined: bool,
}

/// `b` is an outlined button over the given rectangle, labelled `label`
/// at `font_px` pixels.
pub open spec fn button_is(b: Button, x: int, y: int, width: int, height: int, label: Seq<char>, font_px: int) -> bool {
    &&& b.rect.x == x
    &&& b.rect.y == y
    &&& b.rect.width == width
    &&& b.rect.height == height
    &&& b.label@ == label
    &&& b.font_px == font_px
    &&& b.outlined
}

impl Button {
    pub fn new(x: i16, y: i16, width: u16, height: u16, label: String, font_px: u16, outlined: bool) -> (r: Self)
        ensures
            r.rect == (Rectangle { x, y, width, height }),
            r.label == label,
            r.font_px == font_px,
            r.outlined == outlined,
    {
        Button { rect: Rectangle::new(x, y, width, height), label, font_px, outlined }
    }
}

/// A borderless icon with a chess-cell-sized touch footprint. The icon is
/// named by its asset file; the application loads and draws it.
#[derive(Debug, Clone)]
pub struct IconButton {
    pub rect: Rectangle,
    pub asset: String,
    pub glyph_size: u16,
}

/// `b` is an icon button at (`x`, `y`) showing `asset` at the default
/// glyph size.
pub open spec fn icon_button_is(b: IconButton, x: int, y: int, asset: Seq<char>) -> bool {
    &&& b.rect.x == x
    &&& b.rect.y == y
    &&& b.rect.width == ICON_BUTTON_SIZE
    &&& b.rect.height == ICON_BUTTON_SIZE
    &&& b.asset@ == asset
    &&& b.glyph_size == ICON_GLYPH_SIZE
}

impl IconButton {
    pub fn new(x: i16, y: i16, asset_name: &str) -> (r: Self)
        ensures
            r.rect == (Rectangle { x, y, width: ICON_BUTTON_SIZE, height: ICON_BUTTON_SIZE }),
            r.asset@ == asset_name@,
            r.glyph_size == ICON_GLYPH_SIZE,
    {
        IconButton {
            rect: Rectangle::new(x, y, ICON_BUTTON_SIZE, ICON_BUTTON_SIZE),
            asset: string_of(asset_name),
            glyph_size: ICON_GLYPH_SIZE,
        }
    }

    /// The same button with its glyph drawn at `size`; the footprint stays
    /// a full cell.
    pub fn with_glyph_size(self, size: u16) -> (r: Self)
        ensures
            r.rect == self.rect,
            r.asset == self.asset,
            r.glyph_size == size,
    {
        IconButton { glyph_size: size, ..self }
    }

    pub fn contains(&self, px: i16, py: i16) -> (r: bool)
        requires
            rect_fits(self.rect),
        ensures
            r == rect_contains(self.rect, px, py),
    {
        self.rect.contains(px, py)
    }
}


/// The square a touch at (`x`, `y`) lands on, in true board coordinates
/// (the board is drawn flipped when viewed from Black's side).
pub open spec fn touched_square(area: Rectangle, flipped: bool, x: i16, y: i16) -> Option<Square> {
    if !rect_contains(area, x, y) {
        None
    } else {
        let file = (x - area.x) / 134;
        let rank = 7 - (y - area.y) / 134;
        if file > 7 {
            None
        } else {
            Some(
                Square {
                    file: (if flipped {
                        7 - file
                    } else {
                        file
                    }) as u8,
                    rank: (if flipped {
                        7 - rank
                    } else {
                        rank
                    }) as u8,
                },
            )
        }
    }
}

/// Squares `0..n` that satisfy `pred`, in ascending order.
pub open spec fn squares_where(n: int, pred: spec_fn(int) -> bool) -> Seq<int>
    decreases n,
{
    if n <= 0 {
        Seq::empty()
    } else if pred(n - 1) {
        squares_where(n - 1, pred).push(n - 1)
    } else {
        squares_where(n - 1, pred)
    }
}

/// One step of painting the board.
#[derive(Debug, Clone, Copy, PartialEq)]
pub enum BoardPaint {
    /// Paint every square in its colour, every piece of the position, and
    /// the border.
    Full,
    /// Repaint square `sq` in its colour (in white first when `scrub`, so
    /// that the e-ink panel does not ghost), then `piece` on it.
    Square { sq: u8, piece: Option<(Color, Piece)>, scrub: bool },
    /// Stamp the last-move corner brackets on square `sq`.
    LastMove(u8),
    /// Stamp the selection corner cuts on `sq`.
    Selection(Square),
}

/// The 8×8 board: what it shows, what it last painted, and the selection.
#[derive(Debug, Clone, Copy)]
pub struct BoardWidget {
    pub area: Rectangle,
    pub selected_square: Option<Square>,
    /// Viewed from Black's side.
    pub flipped: bool,
    /// The position to show; `None` until the first one arrives.
    pub position: Option<Bitboards>,
    /// The position last painted, diffed against `position`.
    pub last_drawn_position: Option<Bitboards>,
    pub last_drawn_selection: Option<Square>,
    /// Squares of the most recent move (one bit per square).
    pub last_move_squares: u64,
    pub last_drawn_last_move: u64,
    /// Repaint everything next time (orientation change, or something drawn
    /// over the board).
    pub force_full_repaint: bool,
}

/// A board over `area` with nothing shown, selected or painted yet.
pub open spec fn blank_board(area: Rectangle) -> BoardWidget {
    BoardWidget {
        area,
        selected_square: None,
        flipped: false,
        position: None,
        last_drawn_position: None,
        last_drawn_selection: None,
        last_move_squares: 0,
        last_drawn_last_move: 0,
        force_full_repaint: false,
    }
}

/// Index of a square of the board.
pub open spec fn index_of(sq: Square) -> int {
    sq.rank * 8 + sq.file
}

/// The square lies on the board.
pub open spec fn on_board_square(sq: Square) -> bool {
    sq.file < 8 && sq.rank < 8
}

/// The piece the shown position has on `s`.
pub open spec fn shown_piece(position: Option<Bitboards>, s: int) -> Option<(Color, Piece)> {
    match position {
        Some(b) => occupant(b.occupied(), s),
        None => None,
    }
}

/// The UCI text for `mv` on `position`: from-square and to-square, with a
/// queen promotion appended when a pawn reaches its last rank.
pub open spec fn uci_text(position: Bitboards, mv: ChessMove) -> Seq<char> {
    let base = algebraic(mv.from) + algebraic(mv.to);
    let last_rank: Option<int> = match occupant(position.occupied(), index_of(mv.from)) {
        Some((Color::White, Piece::Pawn)) => Some(7),
        Some((Color::Black, Piece::Pawn)) => Some(0),
        _ => None,
    };
    if last_rank == Some(mv.to.rank as int) {
        base.push('q')
    } else {
        base
    }
}

/// The squares alternate like a chessboard: a1 is dark, and a square
/// differs in colour from its neighbours along its rank and along its
/// file.
pub proof fn lemma_checkerboard(file: int, rank: int)
    requires
        0 <= file < 8,
        0 <= rank < 8,
    ensures
        square_color(0, 0) == DrawColor::DarkGray,
        file < 7 ==> square_color(file, rank) != square_color(file + 1, rank),
        rank < 7 ==> square_color(file, rank) != square_color(file, rank + 1),
        square_color(file, rank) == DrawColor::DarkGray || square_color(file, rank)
            == DrawColor::LightGray,
{
}

/// The UCI text of a move on the board names its from-square then its
/// to-square, and ends in a queen promotion `q` exactly when a pawn lands
/// on its last rank: rank 8 (index 7) for White, rank 1 (index 0) for
/// Black.
pub proof fn lemma_uci_text_promotes_on_last_rank(position: Bitboards, mv: ChessMove)
    requires
        on_board_square(mv.from),
        on_board_square(mv.to),
    ensures
        ({
            let t = uci_text(position, mv);
            let promotes = match occupant(position.occupied(), index_of(mv.from)) {
                Some((Color::White, Piece::Pawn)) => mv.to.rank == 7,
                Some((Color::Black, Piece::Pawn)) => mv.to.rank == 0,
                _ => false,
            };
            &&& t.subrange(0, 4) == algebraic(mv.from) + algebraic(mv.to)
            &&& t.subrange(0, 4).len() == 4
            &&& promotes ==> t.len() == 5 && t[4] == 'q'
            &&& !promotes ==> t.len() == 4
        }),
{
    assert(decimal((mv.from.rank + 1) as nat) == seq![digit_char(mv.from.rank + 1)]);
    assert(decimal((mv.to.rank + 1) as nat) == seq![digit_char(mv.to.rank + 1)]);
    let base = algebraic(mv.from) + algebraic(mv.to);
    assert(base.len() == 4);
    assert(base.push('q').subrange(0, 4) =~= base);
    assert(base.subrange(0, 4) =~= base);
}

impl BoardWidget {
    /// Touches can be mapped to squares: the area's far edges are `i16`
    /// values and its height is at most the board's.
    pub open spec fn touch_ready(self) -> bool {
        rect_fits(self.area) && self.area.height <= 1072
    }

    /// The board after a touch, and the event it reports. A first tap
    /// (touch down) on a square selects it and reports `SquareSelected`; a
    /// tap on another square then reports the move and clears the
    /// selection; a second tap on the selected square deselects it.
    pub open spec fn touch_outcome(self, touch: TouchEvent) -> (BoardWidget, Option<AppEvent>) {
        match touched_square(self.area, self.flipped, touch.x, touch.y) {
            None => (self, None),
            Some(sq) => if touch.kind != TouchKind::Down {
                (self, None)
            } else {
                match self.selected_square {
                    Some(s) => if s != sq {
                        (
                            BoardWidget { selected_square: None, ..self },
                            Some(AppEvent::MoveMade(ChessMove { from: s, to: sq })),
                        )
                    } else {
                        (BoardWidget { selected_square: None, ..self }, None)
                    },
                    None => (
                        BoardWidget { selected_square: Some(sq), ..self },
                        Some(AppEvent::SquareSelected(sq)),
                    ),
                }
            },
        }
    }

    /// The board oriented as `flipped`; a change of orientation forces a
    /// full repaint.
    pub open spec fn flipped_to(self, flipped: bool) -> BoardWidget {
        if self.flipped == flipped {
            self
        } else {
            BoardWidget { flipped, force_full_repaint: true, ..self }
        }
    }

    /// The selection, if any, lies on the board.
    pub open spec fn selection_on_board(self) -> bool {
        self.selected_square matches Some(s) ==> on_board_square(s)
    }

    /// Whether `move_to_uci` can encode `mv` (see `can_encode`).
    pub fn encodes(&self, mv: ChessMove) -> (r: bool)
        ensures
            r == self.can_encode(mv),
    {
        let from = mv.from.rank as u16 * 8 + mv.from.file as u16;
        from <= 255 && (self.position.is_none() || from < 64) && mv.from.file as u16 + 97 <= 255
            && mv.from.rank < 255 && mv.to.file as u16 + 97 <= 255 && mv.to.rank < 255
    }

    /// `move_to_uci` can encode `mv`: its squares' indices and letters stay
    /// within `u8`, and the from-square lies on the board once a position is
    /// shown.
    pub open spec fn can_encode(self, mv: ChessMove) -> bool {
        &&& mv.from.rank * 8 + mv.from.file <= u8::MAX
        &&& self.position is Some ==> mv.from.rank * 8 + mv.from.file < 64
        &&& mv.from.file + 97 <= u8::MAX
        &&& mv.from.rank < u8::MAX
        &&& mv.to.file + 97 <= u8::MAX
        &&& mv.to.rank < u8::MAX
    }
}

/// A touch on a board that is ready for touches lands on a square of the
/// board, if on any.
pub proof fn lemma_touched_square_on_board(area: Rectangle, flipped: bool, x: i16, y: i16)
    requires
        rect_fits(area),
        area.height <= 1072,
    ensures
        touched_square(area, flipped, x, y) matches Some(sq) ==> on_board_square(sq),
{
}

/// Two touches down on different squares of a board with nothing selected
/// make a move from the first square to the second: the first selects it,
/// the second reports the move and leaves the board as it was.
pub proof fn lemma_two_taps_make_move(b: BoardWidget, t1: TouchEvent, t2: TouchEvent, s1: Square, s2: Square)
    requires
        b.selected_square is None,
        t1.kind == TouchKind::Down,
        t2.kind == TouchKind::Down,
        touched_square(b.area, b.flipped, t1.x, t1.y) == Some(s1),
        touched_square(b.area, b.flipped, t2.x, t2.y) == Some(s2),
        s1 != s2,
    ensures
        b.touch_outcome(t1).1 == Some(AppEvent::SquareSelected(s1)),
        b.touch_outcome(t1).0.touch_outcome(t2) == (
            b,
            Some(AppEvent::MoveMade(ChessMove { from: s1, to: s2 })),
        ),
{
}

/// A second touch down on the selected square deselects it: two taps on
/// one square of a board with nothing selected leave the board as it was,
/// and no move is made.
pub proof fn lemma_double_tap_deselects(b: BoardWidget, t1: TouchEvent, t2: TouchEvent, s: Square)
    requires
        b.selected_square is None,
        t1.kind == TouchKind::Down,
        t2.kind == TouchKind::Down,
        touched_square(b.area, b.flipped, t1.x, t1.y) == Some(s),
        touched_square(b.area, b.flipped, t2.x, t2.y) == Some(s),
    ensures
        b.touch_outcome(t1).0.touch_outcome(t2) == (b, None::<AppEvent>),
{
}

impl BoardWidget {
    pub fn new(area: Rectangle) -> (r: Self)
        ensures
            r == blank_board(area),
    {
        BoardWidget {
            area,
            selected_square: None,
            flipped: false,
            position: None,
            last_drawn_position: None,
            last_drawn_selection: None,
            last_move_squares: 0,
            last_drawn_last_move: 0,
            force_full_repaint: false,
        }
    }

    pub fn set_position(&mut self, board: Bitboards)
        ensures
            *final(self) == (BoardWidget { position: Some(board), ..*old(self) }),
    {
        self.position = Some(board);
    }

    /// Set the squares to mark as the last move played (0 clears them).
    pub fn set_last_move(&mut self, squares: u64)
        ensures
            *final(self) == (BoardWidget { last_move_squares: squares, ..*old(self) }),
    {
        self.last_move_squares = squares;
    }

    /// Set or clear the selection without a tap (the puzzle hint uses this).
    pub fn select_square(&mut self, square: Option<Square>)
        ensures
            *final(self) == (BoardWidget { selected_square: square, ..*old(self) }),
    {
        self.selected_square = square;
    }

    /// Orient the board; a change of orientation forces a full repaint.
    pub fn set_flipped(&mut self, flipped: bool)
        ensures
            *final(self) == old(self).flipped_to(flipped),
    {
        if self.flipped != flipped {
            self.flipped = flipped;
            self.force_full_repaint = true;
        }
    }

    /// Force the next render to repaint everything.
    pub fn invalidate(&mut self)
        ensures
            *final(self) == (BoardWidget { force_full_repaint: true, ..*old(self) }),
    {
        self.force_full_repaint = true;
    }

    /// A touch on the board. A first tap (touch down) on a square selects it
    /// and reports `SquareSelected`; a tap on another square then reports
    /// the move and clears the selection; a second tap on the selected
    /// square deselects it.
    pub fn handle_touch(&mut self, touch: &TouchEvent) -> (r: Option<AppEvent>)
        requires
            old(self).touch_ready(),
        ensures
            (*final(self), r) == old(self).touch_outcome(*touch),
    {
        if !self.area.contains(touch.x, touch.y) {
            return None;
        }
        let board_x = touch.x - self.area.x;
        let board_y = touch.y - self.area.y;
        let file = (board_x / SQUARE_SIZE as i16) as u8;
        let rank = 7 - (board_y / SQUARE_SIZE as i16) as u8;
        if file > 7 || rank > 7 {
            return None;
        }
        let square = Square::new(
            if self.flipped {
                7 - file
            } else {
                file
            },
            if self.flipped {
                7 - rank
            } else {
                rank
            },
        );
        if touch.kind == TouchKind::Down {
            if let Some(selected) = self.selected_square {
                if selected != square {
                    let chess_move = ChessMove { from: selected, to: square };
                    self.selected_square = None;
                    return Some(AppEvent::MoveMade(chess_move));
                } else {
                    self.selected_square = None;
                }
            } else {
                self.selected_square = Some(square);
                return Some(AppEvent::SquareSelected(square));
            }
        }
        None
    }

    /// Encode `mv` as UCI for the Lichess board API, appending a queen
    /// promotion when a pawn lands on its last rank (there is no promotion
    /// picker). `None` while no position is loaded.
    pub fn move_to_uci(&self, mv: ChessMove) -> (r: Option<String>)
        requires
            self.can_encode(mv),
        ensures
            match self.position {
                None => r is None,
                Some(b) => r matches Some(s) && s@ == uci_text(b, mv),
            },
    {
        let from_idx = mv.from.rank * 8 + mv.from.file;
        let board = match &self.position {
            None => return None,
            Some(b) => b,
        };
        let last_rank: Option<u8> = match board.piece_at(from_idx) {
            Some((Color::White, Piece::Pawn)) => Some(7u8),
            Some((Color::Black, Piece::Pawn)) => Some(0u8),
            _ => None,
        };
        let mut uci = mv.from.to_algebraic();
        let to = mv.to.to_algebraic();
        push_str(&mut uci, to.as_str());
        let promote = match last_rank {
            Some(r) => r == mv.to.rank,
            None => false,
        };
        if promote {
            crate::text::push_char(&mut uci, 'q');
        }
        Some(uci)
    }
}


proof fn lemma_squares_map_push<T>(n: int, pred: spec_fn(int) -> bool, f: spec_fn(int) -> T)
    requires
        n >= 0,
    ensures
        squares_where(n + 1, pred).map_values(f) == if pred(n) {
            squares_where(n, pred).map_values(f).push(f(n))
        } else {
            squares_where(n, pred).map_values(f)
        },
{
    if pred(n) {
        assert(squares_where(n + 1, pred).map_values(f) =~= squares_where(n, pred).map_values(
            f,
        ).push(f(n)));
    }
}

fn same_square_opt(a: Option<Square>, b: Option<Square>) -> (r: bool)
    ensures
        r == (a == b),
{
    match (a, b) {
        (None, None) => true,
        (Some(x), Some(y)) => x == y,
        _ => false,
    }
}

impl BoardWidget {
    /// The next render diffs against what was last painted (otherwise it
    /// paints everything).
    pub open spec fn partial(self) -> bool {
        !self.force_full_repaint && self.last_drawn_position is Some && self.position is Some
    }

    /// Last-move brackets on screen before this render.
    pub open spec fn prev_last_move(self) -> u64 {
        if self.partial() {
            self.last_drawn_last_move
        } else {
            0
        }
    }

    /// Selection cut on screen before this render.
    pub open spec fn prev_selection(self) -> Option<Square> {
        if self.partial() {
            self.last_drawn_selection
        } else {
            None
        }
    }

    /// Square `s` changed occupant since the last paint.
    pub open spec fn diff_at(self, s: int) -> bool {
        self.partial() && 0 <= s < 64 && occupant(self.last_drawn_position.unwrap().occupied(), s) != occupant(
            self.position.unwrap().occupied(),
            s,
        )
    }

    /// Square `s` loses its last-move bracket.
    pub open spec fn removed_bracket(self, s: int) -> bool {
        bit_set(self.prev_last_move(), s) && !bit_set(self.last_move_squares, s)
    }

    /// The square whose old selection cut gets scrubbed, unless an earlier
    /// step already repainted it.
    pub open spec fn cleared_selection(self) -> Option<int> {
        match self.prev_selection() {
            Some(old) => if self.prev_selection() != self.selected_square && !self.diff_at(
                index_of(old),
            ) && !self.removed_bracket(index_of(old)) {
                Some(index_of(old))
            } else {
                None
            },
            None => None,
        }
    }

    /// Square `s` gets repainted by this render.
    pub open spec fn repainted(self, s: int) -> bool {
        self.diff_at(s) || self.removed_bracket(s) || self.cleared_selection() == Some(s)
    }

    pub open spec fn diff_pred(self) -> spec_fn(int) -> bool {
        |s: int| self.diff_at(s)
    }

    pub open spec fn diff_paint(self) -> spec_fn(int) -> BoardPaint {
        |s: int|
            BoardPaint::Square {
                sq: s as u8,
                piece: shown_piece(self.position, s),
                scrub: occupant(self.last_drawn_position.unwrap().occupied(), s) is Some,
            }
    }

    pub open spec fn bracket_pred(self) -> spec_fn(int) -> bool {
        |s: int| self.removed_bracket(s) && !self.diff_at(s)
    }

    pub open spec fn scrub_paint(self) -> spec_fn(int) -> BoardPaint {
        |s: int| BoardPaint::Square { sq: s as u8, piece: shown_piece(self.position, s), scrub: true }
    }

    pub open spec fn stamp_pred(self) -> spec_fn(int) -> bool {
        |s: int|
            bit_set(self.last_move_squares, s) && (!bit_set(self.prev_last_move(), s)
                || self.repainted(s))
    }

    pub open spec fn stamp_paint(self) -> spec_fn(int) -> BoardPaint {
        |s: int| BoardPaint::LastMove(s as u8)
    }

    /// The paint steps of the next render, in order: the changed squares
    /// (or everything), squares losing their last-move bracket, the square
    /// losing the selection cut, the last-move brackets that are new or were
    /// painted over, and the selection cut if it is new or was painted over.
    pub open spec fn render_plan(self) -> Seq<BoardPaint> {
        let first = if self.partial() {
            squares_where(64, self.diff_pred()).map_values(self.diff_paint())
        } else {
            seq![BoardPaint::Full]
        };
        let second = squares_where(64, self.bracket_pred()).map_values(self.scrub_paint());
        let third = match self.cleared_selection() {
            Some(i) => seq![
                BoardPaint::Square { sq: i as u8, piece: shown_piece(self.position, i), scrub: true },
            ],
            None => Seq::empty(),
        };
        let fourth = squares_where(64, self.stamp_pred()).map_values(self.stamp_paint());
        let fifth = match self.selected_square {
            Some(sel) => if Some(sel) != self.prev_selection() || self.repainted(index_of(sel)) {
                seq![BoardPaint::Selection(sel)]
            } else {
                Seq::empty()
            },
            None => Seq::empty(),
        };
        first + second + third + fourth + fifth
    }

    /// Work out what to paint, diffing against what was last painted so that
    /// only changed squares are repainted (a full e-ink repaint flashes),
    /// and record the new state as painted.
    pub fn render(&mut self) -> (r: Vec<BoardPaint>)
        requires
            old(self).selected_square matches Some(s) ==> on_board_square(s),
            old(self).partial() && old(self).last_drawn_selection != old(self).selected_square
                ==> (old(self).last_drawn_selection matches Some(s) ==> on_board_square(s)),
        ensures
            r@ == old(self).render_plan(),
            *final(self) == (BoardWidget {
                last_drawn_position: old(self).position,
                last_drawn_selection: old(self).selected_square,
                last_drawn_last_move: old(self).last_move_squares,
                force_full_repaint: false,
                ..*old(self)
            }),
    {
        let ghost w = *self;
        let do_partial = !self.force_full_repaint && self.last_drawn_position.is_some()
            && self.position.is_some();
        let mut plan: Vec<BoardPaint> = Vec::new();
        let mut repainted: u64 = 0;
        proof {
            lemma_bitwise(0, 0);
        }
        if do_partial {
            let prev = self.last_drawn_position.unwrap();
            let curr = self.position.unwrap();
            let mut sq: u8 = 0;
            assert forall|s: int| bit_set(repainted, s) <==> (s < sq && w.diff_at(s)) by {
                crate::bitboard::lemma_zero_bits();
            }
            while sq < 64
                invariant
                    sq <= 64,
                    w.partial(),
                    Some(prev) == w.last_drawn_position,
                    Some(curr) == w.position,
                    plan@ == squares_where(sq as int, w.diff_pred()).map_values(w.diff_paint()),
                    forall|s: int| bit_set(repainted, s) <==> (s < sq && w.diff_at(s)),
                decreases 64 - sq,
            {
                let before = prev.piece_at(sq);
                let after = curr.piece_at(sq);
                proof {
                    lemma_squares_map_push(sq as int, w.diff_pred(), w.diff_paint());
                }
                assert(w.diff_at(sq as int) == (before != after));
                if !same_occupant(before, after) {
                    plan.push(BoardPaint::Square { sq, piece: after, scrub: before.is_some() });
                    let ghost old_rep = repainted;
                    repainted = repainted | (1u64 << sq);
                    proof {
                        lemma_bitwise(old_rep, 1u64 << sq);
                        assert forall|s: int| bit_set(1u64 << sq, s) <==> s == sq by {
                            if 0 <= s < 64 {
                                crate::bitboard::lemma_single_bit(sq as u64, s as u64);
                            }
                        }
                        assert forall|s: int| bit_set(repainted, s) <==> (s < sq + 1 && w.diff_at(
                            s,
                        )) by {
                            assert(bit_set(repainted, s) <==> bit_set(old_rep, s) || bit_set(
                                1u64 << sq,
                                s,
                            ));
                        }
                    }
                }
                sq += 1;
            }
        } else {
            plan.push(BoardPaint::Full);
            self.last_drawn_selection = None;
            self.last_drawn_last_move = 0;
        }
        assert(plan@ == if w.partial() {
            squares_where(64, w.diff_pred()).map_values(w.diff_paint())
        } else {
            seq![BoardPaint::Full]
        });
        assert(forall|s: int| bit_set(repainted, s) <==> w.diff_at(s));
        let ghost plan1 = plan@;
        let prev_lm = self.last_drawn_last_move;
        let curr_lm = self.last_move_squares;
        assert(prev_lm == w.prev_last_move());
        let removed_lm = prev_lm & !curr_lm;
        proof {
            lemma_bitwise(prev_lm, curr_lm);
            lemma_bitwise(removed_lm, 0);
        }
        if removed_lm != 0 {
            let mut sq: u8 = 0;
            while sq < 64
                invariant
                    sq <= 64,
                    removed_lm == prev_lm & !curr_lm,
                    prev_lm == w.prev_last_move(),
                    curr_lm == w.last_move_squares,
                    self.position == w.position,
                    forall|s: int|
                        0 <= s < 64 ==> (bit_set(removed_lm, s) <==> w.removed_bracket(s)),
                    plan@ == plan1 + squares_where(sq as int, w.bracket_pred()).map_values(w.scrub_paint()),
                    forall|s: int|
                        bit_set(repainted, s) <==> (w.diff_at(s) || (s < sq && w.removed_bracket(
                            s,
                        ))),
                decreases 64 - sq,
            {
                proof {
                    lemma_squares_map_push(sq as int, w.bracket_pred(), w.scrub_paint());
                    lemma_mask_test(removed_lm, sq as u64);
                    lemma_mask_test(repainted, sq as u64);
                }
                if removed_lm & (1u64 << sq) == 0 || repainted & (1u64 << sq) != 0 {
                    proof {
                        if bit_set(repainted, sq as int) && w.removed_bracket(sq as int) {
                            assert(w.diff_at(sq as int));
                        }
                    }
                } else {
                    let new_piece = match &self.position {
                        Some(b) => b.piece_at(sq),
                        None => None,
                    };
                    plan.push(BoardPaint::Square { sq, piece: new_piece, scrub: true });
                    assert(plan@ =~= plan1 + squares_where(sq + 1, w.bracket_pred()).map_values(
                        w.scrub_paint(),
                    ));
                    let ghost old_rep = repainted;
                    repainted = repainted | (1u64 << sq);
                    proof {
                        lemma_bitwise(old_rep, 1u64 << sq);
                        assert forall|s: int| bit_set(1u64 << sq, s) <==> s == sq by {
                            if 0 <= s < 64 {
                                crate::bitboard::lemma_single_bit(sq as u64, s as u64);
                            }
                        }
                    }
                }
                sq += 1;
            }
        } else {
            assert forall|s: int| !#[trigger] w.bracket_pred()(s) by {
                if 0 <= s < 64 {
                    assert(!bit_set(removed_lm, s));
                }
            }
            assert(squares_where(64, w.bracket_pred()) =~= Seq::<int>::empty()) by {
                lemma_squares_none(64int, w.bracket_pred());
            }
            assert(plan@ =~= plan1 + squares_where(64, w.bracket_pred()).map_values(w.scrub_paint()));
        }
        let ghost plan2 = plan@;
        assert(forall|s: int| bit_set(repainted, s) <==> (w.diff_at(s) || w.removed_bracket(s)));
        let prev_sel = self.last_drawn_selection;
        let curr_sel = self.selected_square;
        assert(prev_sel == w.prev_selection());
        if !same_square_opt(prev_sel, curr_sel) {
            if let Some(old) = prev_sel {
                let old_idx = square_to_index(old);
                proof {
                    lemma_mask_test(repainted, old_idx as u64);
                }
                if repainted & (1u64 << old_idx) == 0 {
                    let new_piece = match &self.position {
                        Some(b) => b.piece_at(old_idx),
                        None => None,
                    };
                    plan.push(BoardPaint::Square { sq: old_idx, piece: new_piece, scrub: true });
                    let ghost old_rep = repainted;
                    repainted = repainted | (1u64 << old_idx);
                    proof {
                        lemma_bitwise(old_rep, 1u64 << old_idx);
                        assert forall|s: int| bit_set(1u64 << old_idx, s) <==> s == old_idx by {
                            if 0 <= s < 64 {
                                crate::bitboard::lemma_single_bit(old_idx as u64, s as u64);
                            }
                        }
                    }
                }
            }
        }
        let ghost third = match w.cleared_selection() {
            Some(i) => seq![
                BoardPaint::Square { sq: i as u8, piece: shown_piece(w.position, i), scrub: true },
            ],
            None => Seq::<BoardPaint>::empty(),
        };
        assert(plan@ =~= plan2 + third);
        assert(forall|s: int| bit_set(repainted, s) <==> w.repainted(s));
        let ghost plan3 = plan@;
        let stamp_lm = (curr_lm & !prev_lm) | (curr_lm & repainted);
        proof {
            lemma_bitwise(curr_lm, prev_lm);
            lemma_bitwise(curr_lm, repainted);
            lemma_bitwise(curr_lm & !prev_lm, curr_lm & repainted);
            lemma_bitwise(stamp_lm, 0);
        }
        assert(forall|s: int| 0 <= s < 64 ==> (bit_set(stamp_lm, s) <==> w.stamp_pred()(s)));
        if stamp_lm != 0 {
            let mut sq: u8 = 0;
            while sq < 64
                invariant
                    sq <= 64,
                    forall|s: int| 0 <= s < 64 ==> (bit_set(stamp_lm, s) <==> w.stamp_pred()(s)),
                    plan@ == plan3 + squares_where(sq as int, w.stamp_pred()).map_values(w.stamp_paint()),
                decreases 64 - sq,
            {
                proof {
                    lemma_squares_map_push(sq as int, w.stamp_pred(), w.stamp_paint());
                    lemma_mask_test(stamp_lm, sq as u64);
                    assert(bit_set(stamp_lm, sq as int) == w.stamp_pred()(sq as int));
                }
                if stamp_lm & (1u64 << sq) != 0 {
                    plan.push(BoardPaint::LastMove(sq));
                    assert(plan@ =~= plan3 + squares_where(sq + 1, w.stamp_pred()).map_values(
                        w.stamp_paint(),
                    ));
                }
                sq += 1;
            }
        } else {
            assert forall|s: int| !#[trigger] w.stamp_pred()(s) by {
                if 0 <= s < 64 {
                    assert(!bit_set(stamp_lm, s));
                }
            }
            proof {
                lemma_squares_none(64int, w.stamp_pred());
            }
            assert(plan@ =~= plan3 + squares_where(64, w.stamp_pred()).map_values(w.stamp_paint()));
        }
        let ghost plan4 = plan@;
        if let Some(sel) = curr_sel {
            let sel_idx = square_to_index(sel);
            proof {
                lemma_mask_test(repainted, sel_idx as u64);
            }
            if !same_square_opt(Some(sel), prev_sel) || repainted & (1u64 << sel_idx) != 0 {
                plan.push(BoardPaint::Selection(sel));
            }
        }
        let ghost fifth = match w.selected_square {
            Some(sel) => if Some(sel) != w.prev_selection() || w.repainted(index_of(sel)) {
                seq![BoardPaint::Selection(sel)]
            } else {
                Seq::<BoardPaint>::empty()
            },
            None => Seq::<BoardPaint>::empty(),
        };
        assert(plan@ =~= plan4 + fifth);
        self.last_drawn_position = self.position;
        self.last_drawn_selection = self.selected_square;
        self.last_drawn_last_move = self.last_move_squares;
        self.force_full_repaint = false;
        plan
    }
}

/// The squares picked by `squares_where` lie below `n`, satisfy the
/// predicate, and come in increasing order.
proof fn lemma_squares_where(n: int, pred: spec_fn(int) -> bool)
    ensures
        forall|k: int|
            0 <= k < squares_where(n, pred).len() ==> 0 <= #[trigger] squares_where(n, pred)[k]
                < n && pred(squares_where(n, pred)[k]),
        forall|k1: int, k2: int|
            0 <= k1 < k2 < squares_where(n, pred).len() ==> #[trigger] squares_where(n, pred)[k1]
                < #[trigger] squares_where(n, pred)[k2],
    decreases n,
{
    if n > 0 {
        lemma_squares_where(n - 1, pred);
        let prev = squares_where(n - 1, pred);
        let cur = squares_where(n, pred);
        if pred(n - 1) {
            assert(cur == prev.push(n - 1));
            assert forall|k: int| 0 <= k < cur.len() implies 0 <= #[trigger] cur[k] < n && pred(
                cur[k],
            ) by {
                if k < prev.len() {
                    assert(cur[k] == prev[k]);
                }
            }
            assert forall|k1: int, k2: int|
                0 <= k1 < k2 < cur.len() implies #[trigger] cur[k1] < #[trigger] cur[k2] by {
                assert(cur[k1] == prev[k1]);
                if k2 < prev.len() {
                    assert(cur[k2] == prev[k2]);
                } else {
                    assert(prev[k1] < n - 1);
                }
            }
        } else {
            assert(cur == prev);
        }
    }
}

/// The square a paint step repaints, if it repaints one.
pub open spec fn repainted_square(p: BoardPaint) -> Option<int> {
    match p {
        BoardPaint::Square { sq, .. } => Some(sq as int),
        _ => None,
    }
}

/// A render repaints each square at most once: the paint steps that
/// repaint a square (changed occupants, scrubbed brackets, the scrubbed
/// selection) name different squares. The last painted selection is taken
/// to lie on the board, as every selection the widget makes does.
pub proof fn lemma_render_repaints_once(b: BoardWidget)
    requires
        b.last_drawn_selection matches Some(s) ==> on_board_square(s),
    ensures
        forall|i: int, j: int|
            0 <= i < j < b.render_plan().len() && #[trigger] repainted_square(b.render_plan()[i])
                is Some ==> #[trigger] repainted_square(b.render_plan()[j]) != repainted_square(
                b.render_plan()[i],
            ),
{
    let sd = squares_where(64, b.diff_pred());
    let sb = squares_where(64, b.bracket_pred());
    let ss = squares_where(64, b.stamp_pred());
    lemma_squares_where(64, b.diff_pred());
    lemma_squares_where(64, b.bracket_pred());
    let first = if b.partial() {
        sd.map_values(b.diff_paint())
    } else {
        seq![BoardPaint::Full]
    };
    let second = sb.map_values(b.scrub_paint());
    let third = match b.cleared_selection() {
        Some(i) => seq![
            BoardPaint::Square { sq: i as u8, piece: shown_piece(b.position, i), scrub: true },
        ],
        None => Seq::empty(),
    };
    let fourth = ss.map_values(b.stamp_paint());
    let fifth = match b.selected_square {
        Some(sel) => if Some(sel) != b.prev_selection() || b.repainted(index_of(sel)) {
            seq![BoardPaint::Selection(sel)]
        } else {
            Seq::empty()
        },
        None => Seq::empty(),
    };
    let plan = b.render_plan();
    assert(plan == first + second + third + fourth + fifth);
    let la = first.len();
    let lb = la + second.len();
    let lc = lb + third.len();
    let ld = lc + fourth.len();
    // Where each step comes from, and what it repaints.
    assert forall|k: int| 0 <= k < plan.len() implies {
        &&& k < la ==> plan[k] == first[k]
        &&& la <= k < lb ==> plan[k] == second[k - la]
        &&& lb <= k < lc ==> plan[k] == third[k - lb]
        &&& lc <= k ==> repainted_square(plan[k]) is None
    } by {
        if lc <= k < ld {
            assert(plan[k] == fourth[k - lc]);
        } else if ld <= k {
            assert(plan[k] == fifth[k - ld]);
        }
    }
    assert forall|k: int| 0 <= k < la && #[trigger] repainted_square(first[k]) is Some implies {
        &&& b.partial()
        &&& repainted_square(first[k]) == Some(sd[k])
        &&& b.diff_at(sd[k])
    } by {}
    assert forall|k: int| 0 <= k < second.len() implies {
        &&& #[trigger] repainted_square(second[k]) == Some(sb[k])
        &&& b.removed_bracket(sb[k])
        &&& !b.diff_at(sb[k])
    } by {}
    assert forall|i: int, j: int|
        0 <= i < j < plan.len() && #[trigger] repainted_square(plan[i])
            is Some implies #[trigger] repainted_square(plan[j]) != repainted_square(plan[i]) by {
        if j < la {
            assert(sd[i] < sd[j]);
        } else if j < lb && i < la {
            assert(repainted_square(second[j - la]) == Some(sb[j - la]));
        } else if j < lb {
            assert(sb[i - la] < sb[j - la]);
        } else if j < lc {
            let c = b.cleared_selection()->0;
            assert(repainted_square(plan[j]) == Some(c));
            assert(0 <= c < 64);
            if i >= la {
                assert(repainted_square(second[i - la]) == Some(sb[i - la]));
            }
        }
    }
}

proof fn lemma_squares_none(n: int, pred: spec_fn(int) -> bool)
    requires
        forall|s: int| !#[trigger] pred(s),
    ensures
        squares_where(n, pred) == Seq::<int>::empty(),
    decreases n,
{
    if n > 0 {
        lemma_squares_none(n - 1, pred);
    }
}

} // verus!
