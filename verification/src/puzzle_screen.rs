//! The puzzle screen: a puzzle played on the board and checked move by move
//! against its solution.

use crate::events::{algebraic, AppEvent, ChessMove, Rectangle, RectangleExt, Square};
use crate::game_screens::{board_area, sidebar_area};
use crate::oauth::TokenInfo;
use crate::puzzle::{
    rejected_puzzle, same_from_to, same_from_to_text, Difficulty, PuzzleColor, PuzzleParams, PuzzlePhase, PuzzleSession,
    PuzzleStatus,
};
use crate::screens::{just, window_reaction, Effect, Reaction, Screen, Transition};
use crate::menus::PuzzleSettingsScreen;
use crate::sidebar::{status_line, themes_line, PuzzleSidebarWidget, StatusIcon};
use crate::widgets::{blank_board, lemma_touched_square_on_board, uci_text, BoardWidget};
use crate::text::{decimal, digit_char};
use vstd::prelude::*;
use vstd::utf8::{encode_utf8, is_ascii_chars, is_ascii_chars_encode_utf8};

verus! {

/// A puzzle being played: the board, the puzzle sidebar and the session
/// that checks the solver's moves.
pub struct PuzzleScreen {
    pub board: BoardWidget,
    pub sidebar: PuzzleSidebarWidget,
    /// The puzzle in play, once one has loaded.
    pub session: Option<PuzzleSession>,
    /// The signed-in user's token, for authenticated puzzle requests.
    pub token: Option<TokenInfo>,
    /// The parameters of the last `/puzzle/next` request.
    pub params: PuzzleParams,
    /// The opening puzzle has been requested.
    pub load_started: bool,
}

/// The from-square of a UCI move: its first two characters as a file
/// `a`–`h` and a rank `1`–`8`; `None` when the text is shorter or they are
/// out of range.
pub open spec fn uci_from_square(uci: Seq<char>) -> Option<Square> {
    let b = encode_utf8(uci);
    if b.len() < 2 {
        None
    } else if 97 <= b[0] < 105 && 49 <= b[1] < 57 {
        Some(Square { file: (b[0] - 97) as u8, rank: (b[1] - 49) as u8 })
    } else {
        None
    }
}

/// Parse the from-square of a UCI move.
pub fn square_from_uci(uci: &str) -> (r: Option<Square>)
    ensures
        r == uci_from_square(uci@),
{
    let b = uci.as_bytes();
    proof {
        assert(b@ == encode_utf8(uci@));
    }
    if b.len() < 2 {
        return None;
    }
    let file = match b[0].checked_sub(97u8) {
        Some(f) => if f < 8 {
            f
        } else {
            return None;
        },
        None => return None,
    };
    let rank = match b[1].checked_sub(49u8) {
        Some(r) => if r < 8 {
            r
        } else {
            return None;
        },
        None => return None,
    };
    Some(Square::new(file, rank))
}

/// Reading a square's algebraic name as the start of a UCI move gives the
/// square back: `e2` is file 4, rank 1.
pub proof fn lemma_square_name_round_trip(sq: Square)
    requires
        sq.file < 8,
        sq.rank < 8,
    ensures
        uci_from_square(algebraic(sq)) == Some(sq),
{
    let t = algebraic(sq);
    assert(decimal((sq.rank + 1) as nat) == seq![digit_char(sq.rank + 1)]);
    assert(t =~= seq![(97 + sq.file) as char, ('0' as int + sq.rank + 1) as char]);
    assert(is_ascii_chars(t));
    is_ascii_chars_encode_utf8(t);
    let b = encode_utf8(t);
    assert(b[0] == t[0] as u8);
    assert(b[1] == t[1] as u8);
}

fn copy_token_opt(t: &Option<TokenInfo>) -> (r: Option<TokenInfo>)
    ensures
        r == *t,
{
    match t {
        Some(x) => Some(x.duplicate()),
        None => None,
    }
}

impl PuzzleScreen {
    /// The widgets can be hit-tested and the selection lies on the board.
    pub open spec fn wf(self) -> bool {
        &&& self.board.touch_ready()
        &&& self.board.selection_on_board()
        &&& self.sidebar.touch_ready()
    }

    /// Move `mv` made on the board would be played: a puzzle accepts
    /// input, a position is shown, and the move names the from and to
    /// squares of the expected solution move.
    pub open spec fn plays(self, mv: ChessMove) -> bool {
        match (self.session, self.board.position) {
            (Some(s), Some(b)) => s.accepts() && same_from_to(
                encode_utf8(uci_text(b, mv)),
                encode_utf8(s.move_text(s.progress as int)),
            ),
            _ => false,
        }
    }

    /// Where event `e` plays the puzzle's next solution move (a move made
    /// directly or by touch that matches it, or a pending opponent reply),
    /// that move can be applied to the position.
    pub open spec fn playable_where_played(self, e: AppEvent) -> bool {
        match e {
            AppEvent::MoveMade(mv) => self.plays(mv) ==> self.session->0.next_move_defined(),
            AppEvent::Touch(t) => match self.board.touch_outcome(t).1 {
                Some(AppEvent::MoveMade(mv)) => self.plays(mv) ==> self.session->0.next_move_defined(),
                _ => true,
            },
            AppEvent::PuzzleOpponentMove => match self.session {
                Some(s) => s.reply_pending() ==> s.next_move_defined(),
                None => true,
            },
            _ => true,
        }
    }

    /// The events this screen can take, where the app would stop: a
    /// move must be one the board can encode (moves made on the board
    /// always are), and a solution move the event plays must be one the
    /// position can apply.
    pub open spec fn takes(self, e: AppEvent) -> bool {
        &&& e matches AppEvent::MoveMade(mv) ==> self.board.can_encode(mv)
        &&& self.playable_where_played(e)
    }

    /// Whether playing `mv`, if it matches the expected move, is defined.
    fn move_playable(&self, mv: ChessMove) -> (r: bool)
        requires
            self.board.can_encode(mv),
        ensures
            r == (self.plays(mv) ==> self.session->0.next_move_defined()),
    {
        let uci = match self.board.move_to_uci(mv) {
            Some(u) => u,
            None => return true,
        };
        match &self.session {
            None => true,
            Some(s) => match s.next_expected_move() {
                None => true,
                Some(expected) => if same_from_to_text(uci.as_str(), expected) {
                    s.next_move_playable()
                } else {
                    true
                },
            },
        }
    }

    /// Whether this screen can take `event` (see `takes`).
    pub fn takes_event(&self, event: &AppEvent) -> (r: bool)
        requires
            self.wf(),
        ensures
            r == self.takes(*event),
    {
        match event {
            AppEvent::MoveMade(mv) => self.board.encodes(*mv) && self.move_playable(*mv),
            AppEvent::Touch(t) => {
                proof {
                    lemma_touched_square_on_board(self.board.area, self.board.flipped, t.x, t.y);
                }
                let mut board = self.board;
                match board.handle_touch(t) {
                    Some(AppEvent::MoveMade(mv)) => self.move_playable(mv),
                    _ => true,
                }
            },
            AppEvent::PuzzleOpponentMove => match &self.session {
                Some(s) => !s.opponent_reply_pending() || s.next_move_playable(),
                None => true,
            },
            _ => true,
        }
    }

    /// `next` is this screen with the board showing `s`'s position and
    /// last move, and the sidebar showing `status`; the puzzle in play is
    /// `s`.
    pub open spec fn synced(self, s: PuzzleSession, status: PuzzleStatus, next: Self) -> bool {
        &&& next == (PuzzleScreen {
            board: BoardWidget {
                position: Some(s.position),
                last_move_squares: s.last_move_mask,
                ..self.board
            },
            sidebar: next.sidebar,
            session: Some(s),
            ..self
        })
        &&& self.sidebar.status_shown(next.sidebar, status_line(status).0, status_line(status).1)
    }

    /// `next` is this screen with the sidebar showing `message` and no
    /// icon.
    pub open spec fn messaged(self, message: Seq<char>, next: Self) -> bool {
        &&& next == (PuzzleScreen { sidebar: next.sidebar, ..self })
        &&& self.sidebar.status_shown(next.sidebar, message, StatusIcon::NoIcon)
    }

    /// The square the hint marks: the from-square of the expected move,
    /// while the puzzle accepts input.
    pub open spec fn hint_square(self) -> Option<Square> {
        match self.session {
            Some(s) => if s.accepts() {
                uci_from_square(s.move_text(s.progress as int))
            } else {
                None
            },
            None => None,
        }
    }

    /// `next` and `r` are the screen and reaction after event `e` other
    /// than a touch.
    ///
    /// A loaded puzzle replaces the one in play: the board turns to the
    /// solver's side and shows its position and setup move with no
    /// selection, the sidebar its rating, themes and status; a puzzle that
    /// cannot be set up (or a failed fetch) shows "Could not load puzzle".
    /// A move on the board is checked against the solution while the
    /// puzzle accepts input, and the board and status follow the session;
    /// after a correct non-final move the opponent's reply is scheduled,
    /// and played when it comes (if still pending). The hint marks the
    /// piece to move; next puzzle and new parameters fetch another puzzle
    /// with "Loading…" shown.
    pub open spec fn reacts(self, e: AppEvent, next: Self, r: Reaction) -> bool {
        match e {
            AppEvent::PuzzleLoaded(p) => r == just(Transition::Redraw) && if rejected_puzzle(p) {
                self.messaged("Could not load puzzle"@, next)
            } else {
                next.session matches Some(s) && {
                    &&& s.built_from(p)
                    &&& next == (PuzzleScreen {
                        board: BoardWidget {
                            position: Some(s.position),
                            last_move_squares: s.last_move_mask,
                            selected_square: None,
                            ..self.board.flipped_to(!s.solver_white)
                        },
                        sidebar: next.sidebar,
                        session: Some(s),
                        ..self
                    })
                    &&& next.sidebar == (PuzzleSidebarWidget {
                        rating: Some(p.rating),
                        themes: next.sidebar.themes,
                        status_text: next.sidebar.status_text,
                        status_icon: StatusIcon::NoIcon,
                        ..self.sidebar
                    })
                    &&& next.sidebar.themes@ == themes_line(p.themes@)
                    &&& next.sidebar.status_text@ == "Find the best move"@
                }
            },
            AppEvent::PuzzleLoadFailed(_) => self.messaged("Could not load puzzle"@, next) && r
                == just(Transition::Redraw),
            AppEvent::MoveMade(mv) => r.transition == Transition::Redraw && match (
                self.session,
                self.board.position,
            ) {
                (Some(s), Some(b)) => if s.accepts() {
                    next.session matches Some(s2) && {
                        &&& s.move_tried(uci_text(b, mv), s2, s2.status)
                        &&& self.synced(s2, s2.status, next)
                        &&& r.effect == if s2.reply_pending() {
                            Some(Effect::PuzzleReplyLater)
                        } else {
                            None
                        }
                    }
                } else {
                    next == self && r.effect is None
                },
                _ => next == self && r.effect is None,
            },
            AppEvent::PuzzleOpponentMove => match self.session {
                Some(s) => if s.reply_pending() {
                    next.session matches Some(s2) && {
                        &&& s.reply_applied(s2, s2.status)
                        &&& self.synced(s2, s2.status, next)
                        &&& r == just(Transition::Redraw)
                    }
                } else {
                    next == self && r == just(Transition::Stay)
                },
                None => next == self && r == just(Transition::Stay),
            },
            AppEvent::SquareSelected(_) => next == self && r == just(Transition::Redraw),
            AppEvent::ShowPuzzleHint => r == just(Transition::Redraw) && match self.hint_square() {
                Some(sq) => next == (PuzzleScreen {
                    board: BoardWidget { selected_square: Some(sq), ..self.board },
                    ..self
                }),
                None => next == self,
            },
            AppEvent::OpenPuzzleSettings => {
                &&& next == self
                &&& r.effect is None
                &&& r.transition matches Transition::Push(Screen::PuzzleSettings(ps)) && ps.is_new(
                    self.params,
                )
            },
            AppEvent::NextPuzzle => self.messaged("Loading…"@, next) && r == (Reaction {
                transition: Transition::Redraw,
                effect: Some(Effect::FetchNextPuzzle(self.token, self.params)),
            }),
            AppEvent::ApplyPuzzleParams(params) => (PuzzleScreen { params, ..self }).messaged(
                "Loading…"@,
                next,
            ) && r == (Reaction {
                transition: Transition::Redraw,
                effect: Some(Effect::FetchNextPuzzle(self.token, params)),
            }),
            AppEvent::ExitToMenu => next == self && r == just(Transition::Pop),
            AppEvent::Expose => next == self.invalidated() && r == just(Transition::Redraw),
            _ => next == self && r == window_reaction(e),
        }
    }

    /// `next` and `r` are the screen and reaction after `e`. A touch goes to
    /// the board first, then to the sidebar, and whatever event the widget
    /// raises is handled as above; a touch that raises nothing redraws.
    pub open spec fn step(self, e: AppEvent, next: Self, r: Reaction) -> bool {
        match e {
            AppEvent::Touch(t) => {
                let (b, raised) = self.board.touch_outcome(t);
                let mid = PuzzleScreen { board: b, ..self };
                match raised {
                    Some(be) => mid.reacts(be, next, r),
                    None => match self.sidebar.touch_event(t) {
                        Some(se) => mid.reacts(se, next, r),
                        None => next == mid && r == just(Transition::Redraw),
                    },
                }
            },
            _ => self.reacts(e, next, r),
        }
    }

    /// Both widgets set to repaint in full.
    pub open spec fn invalidated(self) -> Self {
        PuzzleScreen {
            board: BoardWidget { force_full_repaint: true, ..self.board },
            sidebar: PuzzleSidebarWidget { needs_full_repaint: true, ..self.sidebar },
            ..self
        }
    }

    /// `self` is the screen `new` builds for `token`.
    pub open spec fn is_new(self, token: Option<TokenInfo>) -> bool {
        &&& self.board == blank_board(board_area())
        &&& self.sidebar.is_new(sidebar_area())
        &&& self.session is None
        &&& self.token == token
        &&& self.params == (PuzzleParams {
            difficulty: Difficulty::Normal,
            phase: PuzzlePhase::Any,
            color: PuzzleColor::Random,
        })
        &&& !self.load_started
    }

    pub fn new(token: Option<TokenInfo>) -> (r: Self)
        ensures
            r.is_new(token),
            r.wf(),
    {
        PuzzleScreen {
            board: BoardWidget::new(Rectangle::new(0, 0, 1072, 1072)),
            sidebar: PuzzleSidebarWidget::new(Rectangle::new(0, 1072, 1072, 376)),
            session: None,
            token,
            params: PuzzleParams::default(),
            load_started: false,
        }
    }

    /// On the first paint: fetch the opening puzzle, once.
    pub fn start(&mut self) -> (r: Option<Effect>)
        ensures
            *final(self) == (PuzzleScreen { load_started: true, ..*old(self) }),
            r == if old(self).load_started {
                None
            } else {
                Some(Effect::FetchHomePuzzle(old(self).token, old(self).params))
            },
    {
        if self.load_started {
            return None;
        }
        self.load_started = true;
        Some(Effect::FetchHomePuzzle(copy_token_opt(&self.token), self.params))
    }

    /// Back on top after the settings screen: it drew over both widgets, so
    /// they repaint in full.
    pub fn on_reveal(&mut self)
        ensures
            *final(self) == old(self).invalidated(),
    {
        self.board.invalidate();
        self.sidebar.invalidate();
    }

    pub fn handle_event(&mut self, event: AppEvent) -> (r: Reaction)
        requires
            old(self).wf(),
            old(self).takes(event),
        ensures
            old(self).step(event, *final(self), r),
            final(self).wf(),
            r.transition matches Transition::Push(s) ==> s.wf(),
    {
        match event {
            AppEvent::Touch(touch) => {
                proof {
                    lemma_touched_square_on_board(
                        self.board.area,
                        self.board.flipped,
                        touch.x,
                        touch.y,
                    );
                }
                match self.board.handle_touch(&touch) {
                    Some(e) => self.react(e),
                    None => match self.sidebar.handle_touch(&touch) {
                        Some(e) => self.react(e),
                        None => Reaction::redraw(),
                    },
                }
            },
            _ => self.react(event),
        }
    }

    /// Show `status` and the session's position and last move.
    fn sync(&mut self, status: PuzzleStatus)
        requires
            old(self).session is Some,
        ensures
            old(self).synced(old(self).session->0, status, *final(self)),
            final(self).wf() == old(self).wf(),
    {
        let (position, mask) = match &self.session {
            Some(s) => (s.position, s.last_move_mask),
            None => return,
        };
        self.board.set_position(position);
        self.board.set_last_move(mask);
        self.sidebar.set_status(&status);
    }

    fn react(&mut self, event: AppEvent) -> (r: Reaction)
        requires
            old(self).wf(),
            old(self).takes(event),
        ensures
            old(self).reacts(event, *final(self), r),
            final(self).wf(),
            r.transition matches Transition::Push(s) ==> s.wf(),
    {
        match event {
            AppEvent::PuzzleLoaded(puzzle) => {
                let ghost p = puzzle;
                match PuzzleSession::new(puzzle) {
                    Ok(session) => {
                        self.board.set_flipped(!session.solver_white);
                        self.board.set_position(session.position);
                        self.board.set_last_move(session.last_move_mask);
                        self.board.select_square(None);
                        self.sidebar.set_puzzle_info(session.rating, session.themes.as_slice());
                        self.sidebar.set_status(&session.status);
                        self.session = Some(session);
                    },
                    Err(_) => {
                        self.sidebar.set_message("Could not load puzzle");
                    },
                }
                Reaction::redraw()
            },
            AppEvent::PuzzleLoadFailed(_) => {
                self.sidebar.set_message("Could not load puzzle");
                Reaction::redraw()
            },
            AppEvent::MoveMade(chess_move) => {
                let accepting = match &self.session {
                    Some(s) => s.accepts_input(),
                    None => false,
                };
                if !accepting {
                    return Reaction::redraw();
                }
                let uci = match self.board.move_to_uci(chess_move) {
                    Some(u) => u,
                    None => return Reaction::redraw(),
                };
                let (status, pending) = match &mut self.session {
                    Some(s) => {
                        let st = s.try_move(uci.as_str());
                        (st, s.opponent_reply_pending())
                    },
                    None => return Reaction::redraw(),
                };
                self.sync(status);
                let effect = if pending {
                    Some(Effect::PuzzleReplyLater)
                } else {
                    None
                };
                Reaction { transition: Transition::Redraw, effect }
            },
            AppEvent::PuzzleOpponentMove => {
                let pending = match &self.session {
                    Some(s) => s.opponent_reply_pending(),
                    None => false,
                };
                if !pending {
                    return Reaction::stay();
                }
                let status = match &mut self.session {
                    Some(s) => s.apply_opponent_reply(),
                    None => return Reaction::stay(),
                };
                self.sync(status);
                Reaction::redraw()
            },
            AppEvent::SquareSelected(_) => Reaction::redraw(),
            AppEvent::ShowPuzzleHint => {
                let from = match &self.session {
                    Some(s) => match s.next_expected_move() {
                        Some(m) => square_from_uci(m),
                        None => None,
                    },
                    None => None,
                };
                match from {
                    Some(square) => self.board.select_square(Some(square)),
                    None => {},
                }
                Reaction::redraw()
            },
            AppEvent::OpenPuzzleSettings => Reaction::push(
                Screen::PuzzleSettings(PuzzleSettingsScreen::new(self.params)),
            ),
            AppEvent::NextPuzzle => {
                self.sidebar.set_message("Loading…");
                Reaction {
                    transition: Transition::Redraw,
                    effect: Some(Effect::FetchNextPuzzle(copy_token_opt(&self.token), self.params)),
                }
            },
            AppEvent::ApplyPuzzleParams(params) => {
                self.params = params;
                self.sidebar.set_message("Loading…");
                Reaction {
                    transition: Transition::Redraw,
                    effect: Some(Effect::FetchNextPuzzle(copy_token_opt(&self.token), self.params)),
                }
            },
            AppEvent::ExitToMenu => Reaction::pop(),
            AppEvent::Expose => {
                self.board.invalidate();
                self.sidebar.invalidate();
                Reaction::redraw()
            },
            _ => Reaction::window(&event),
        }
    }
}

} // verus!
