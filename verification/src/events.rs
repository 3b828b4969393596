//! Input and message types shared by the screens: board squares and moves,
//! touches, screen rectangles, and the application event.

use crate::bitboard::Bitboards;
use crate::board_api::{GameDataList, PlayedBy, Turn};
use crate::chess::ChessApp;
use crate::github::UpdateInfo;
use crate::oauth::{LichessUser, TokenInfo};
use crate::puzzle::{Puzzle, PuzzleParams};
use crate::text::{decimal, push_char, push_decimal};
use vstd::prelude::*;

verus! {

/// A board square in true board coordinates: file 0..8 is a..h, rank 0..8
/// is 1..8.
#[derive(Debug, Clone, Copy, PartialEq, Eq, Structural)]
pub struct Square {
    pub file: u8,
    pub rank: u8,
}

/// Algebraic name of a square: the file letter, then the rank number.
pub open spec fn algebraic(sq: Square) -> Seq<char> {
    seq![(97 + sq.file) as char] + decimal((sq.rank + 1) as nat)
}

impl Square {
    pub fn new(file: u8, rank: u8) -> (r: Self)
        ensures
            r == (Square { file, rank }),
    {
        Self { file, rank }
    }

    /// `e4` and the like.
    pub fn to_algebraic(&self) -> (r: String)
        requires
            self.file + 97 <= u8::MAX,
            self.rank < u8::MAX,
        ensures
            r@ == algebraic(*self),
    {
        let mut s = String::new();
        push_char(&mut s, (97u8 + self.file) as char);
        push_decimal(&mut s, (self.rank + 1) as u64);
        assert(s@ =~= algebraic(*self));
        s
    }
}

#[derive(Debug, Clone, Copy, PartialEq, Eq, Structural)]
pub struct ChessMove {
    pub from: Square,
    pub to: Square,
}

#[derive(Debug, Clone, Copy, PartialEq, Eq, Structural)]
pub enum TouchKind {
    Down,
    Up,
    Move,
}

#[derive(Debug, Clone, Copy, PartialEq, Eq, Structural)]
pub struct TouchEvent {
    pub x: i16,
    pub y: i16,
    pub kind: TouchKind,
}

/// A screen rectangle, the shape of X11's `Rectangle`.
#[derive(Debug, Clone, Copy, PartialEq, Eq, Structural)]
pub struct Rectangle {
    pub x: i16,
    pub y: i16,
    pub width: u16,
    pub height: u16,
}

/// The point lies in the rectangle: from its left and top edges inclusive
/// to `x + width` and `y + height` exclusive, the sizes being read as `i16`.
pub open spec fn rect_contains(r: Rectangle, px: i16, py: i16) -> bool {
    px >= r.x && px < r.x + (r.width as i16) && py >= r.y && py < r.y + (r.height as i16)
}

/// The far edges `x + width` and `y + height` are `i16` values.
pub open spec fn rect_fits(r: Rectangle) -> bool {
    i16::MIN <= r.x + (r.width as i16) <= i16::MAX && i16::MIN <= r.y + (r.height as i16)
        <= i16::MAX
}

/// Construction and hit testing of rectangles.
pub trait RectangleExt: Sized {
    /// The point lies in the rectangle.
    spec fn contains_point(&self, px: i16, py: i16) -> bool;

    /// The far edges can be computed.
    spec fn edges_fit(&self) -> bool;

    fn new(x: i16, y: i16, width: u16, height: u16) -> Self;

    fn contains(&self, px: i16, py: i16) -> (r: bool)
        requires
            self.edges_fit(),
        ensures
            r == self.contains_point(px, py),
    ;
}

impl RectangleExt for Rectangle {
    open spec fn contains_point(&self, px: i16, py: i16) -> bool {
        rect_contains(*self, px, py)
    }

    open spec fn edges_fit(&self) -> bool {
        rect_fits(*self)
    }

    fn new(x: i16, y: i16, width: u16, height: u16) -> (r: Self)
        ensures
            r == (Rectangle { x, y, width, height }),
    {
        Self { x, y, width, height }
    }

    fn contains(&self, px: i16, py: i16) -> (r: bool) {
        px >= self.x && px < self.x + self.width as i16 && py >= self.y && py < self.y
            + self.height as i16
    }
}

/// `Clone` of `Duration`, a `Copy` type: the copy is the same duration.
pub assume_specification[ <core::time::Duration as Clone>::clone ](d: &core::time::Duration) -> (r:
    core::time::Duration)
    ensures
        r == *d,
;

/// A greyscale image (such as the authorisation QR code), row by row.
#[derive(Debug, Clone)]
pub struct GrayImage {
    pub width: u32,
    pub height: u32,
    pub pixels: Vec<u8>,
}

/// Everything that reaches a screen: input, results of background tasks and
/// messages between screens.
#[derive(Debug, Clone)]
pub enum AppEvent {
    AuthSuccess(TokenInfo, LichessUser),
    AuthFailed(String),
    QrReady(GrayImage),
    OngoingGamesLoaded(GameDataList),
    OngoingGamesFailed(String),
    UpdateAvailable(UpdateInfo),
    UpdateUpToDate,
    UpdateCheckFailed(String),
    UpdateApplied,
    UpdateApplyFailed(String),
    /// The game stream's full snapshot; `board` is the position rebuilt from
    /// the initial FEN and the move list, `last_move` the squares touched by
    /// the last move (0 for none).
    GameFullReceived {
        white: PlayedBy,
        black: PlayedBy,
        player0_white: bool,
        turn: Turn,
        board: Bitboards,
        last_move: u64,
    },
    TurnChanged { turn: Turn, board: Bitboards, last_move: u64 },
    PuzzleLoaded(Puzzle),
    PuzzleLoadFailed(String),
    OpenPuzzleSettings,
    NextPuzzle,
    ShowPuzzleHint,
    /// The opponent's scripted reply, posted about a second after a correct
    /// move.
    PuzzleOpponentMove,
    ApplyPuzzleParams(PuzzleParams),
    Touch(TouchEvent),
    Redraw,
    Tick(core::time::Duration),
    MoveMade(ChessMove),
    SquareSelected(Square),
    /// The server rejected the last move.
    MoveRejected,
    ExitToMenu,
    OpenGameActions,
    ChessReady(ChessApp),
    Quit,
    Expose,
    WindowUnmapped,
}

} // verus!
