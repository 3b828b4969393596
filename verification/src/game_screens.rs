//! The live-game screen and the list of ongoing games it is reached from.

use crate::board_api::{GameData, GameDataList, PlayedBy, Turn};
use crate::board_api::display_name_of;
use crate::chess::{idle_api, in_game_api, with_game_full, with_turn, ChessApp, ChessBackend};
use crate::menus::GameActionsScreen;
use crate::events::{rect_contains, rect_fits, AppEvent, ChessMove, Rectangle, RectangleExt, TouchEvent, TouchKind};
use crate::screens::{just, window_reaction, Effect, Reaction, Screen, Transition};
use crate::sidebar::{turn_text, SidebarWidget};
use crate::text::{copy_string, decimal, push_decimal, push_str, string_of};
use crate::widgets::{
    blank_board, button_is, icon_button_is, lemma_touched_square_on_board, uci_text, BoardWidget,
    Button, IconButton, ICON_BUTTON_SIZE,
};
use vstd::prelude::*;

verus! {

/// Where the board is drawn: the top 1072 × 1072 square of the canvas.
pub open spec fn board_area() -> Rectangle {
    Rectangle { x: 0, y: 0, width: 1072, height: 1072 }
}

/// Where the sidebar is drawn: the strip below the board.
pub open spec fn sidebar_area() -> Rectangle {
    Rectangle { x: 0, y: 1072, width: 1072, height: 376 }
}

// ─── ChessGameScreen ─────────────────────────────────────────────────────────

/// A live game: the board, and the sidebar with the opponent and the turn.
pub struct ChessGameScreen {
    pub app: ChessApp,
    pub board: BoardWidget,
    pub sidebar: SidebarWidget,
    /// The game stream has been started.
    pub stream_started: bool,
}

impl ChessGameScreen {
    /// `self` is the screen `new` builds for `app`: the sidebar already
    /// shows the turn when `app` is scoped to a game.
    pub open spec fn is_new(self, app: ChessApp) -> bool {
        &&& self.app == app
        &&& self.board == blank_board(board_area())
        &&& self.sidebar.is_new_showing(
            sidebar_area(),
            match app.backend {
                ChessBackend::OnlineInGame(api) => turn_text(api.state.turn),
                _ => "Loading…"@,
            },
        )
        &&& !self.stream_started
    }

    /// The widgets can be hit-tested and the selection lies on the board.
    pub open spec fn wf(self) -> bool {
        self.board.touch_ready() && self.board.selection_on_board() && self.sidebar.touch_ready()
    }

    /// The events this screen can take: a move must be one the board can
    /// encode (moves made on the board always are).
    pub open spec fn takes(self, e: AppEvent) -> bool {
        e matches AppEvent::MoveMade(mv) ==> self.board.can_encode(mv)
    }

    /// `next` and `r` are the screen and reaction after event `e` other
    /// than a touch.
    ///
    /// The game's first snapshot names the opponent (whichever side the
    /// local player is not), records both sides and the turn in the app,
    /// orients the board with the local player at the bottom and shows the
    /// position, last move and turn; a turn change shows the new position
    /// and turn. A move made on the board is submitted for the game in play
    /// (nothing is sent before a position is shown, or without a game); a
    /// refused move is flagged in the sidebar until the next turn.
    pub open spec fn reacts(self, e: AppEvent, next: Self, r: Reaction) -> bool {
        match e {
            AppEvent::GameFullReceived { white, black, player0_white, turn, board, last_move } => {
                &&& next.app == with_game_full(self.app, white, black, player0_white, turn)
                &&& next.board == (BoardWidget {
                    position: Some(board),
                    last_move_squares: last_move,
                    ..self.board.flipped_to(!player0_white)
                })
                &&& next.sidebar == (SidebarWidget {
                    opponent: next.sidebar.opponent,
                    turn_status: next.sidebar.turn_status,
                    rejected: false,
                    ..self.sidebar
                })
                &&& next.sidebar.opponent@ == display_name_of(
                    if player0_white {
                        black
                    } else {
                        white
                    },
                )
                &&& next.sidebar.turn_status@ == turn_text(turn)
                &&& next.stream_started == self.stream_started
                &&& r == just(Transition::Redraw)
            },
            AppEvent::TurnChanged { turn, board, last_move } => {
                &&& next.app == with_turn(self.app, turn)
                &&& next.board == (BoardWidget {
                    position: Some(board),
                    last_move_squares: last_move,
                    ..self.board
                })
                &&& self.sidebar.turn_shown(next.sidebar, turn)
                &&& next.stream_started == self.stream_started
                &&& r == just(Transition::Redraw)
            },
            AppEvent::MoveMade(mv) => {
                &&& next == self
                &&& r.transition == Transition::Redraw
                &&& match (self.board.position, in_game_api(self.app)) {
                    (Some(b), Some(api)) => r.effect matches Some(Effect::SubmitMove(a, u)) && (a
                        == api && u@ == uci_text(b, mv)),
                    _ => r.effect is None,
                }
            },
            AppEvent::MoveRejected => next == (ChessGameScreen {
                sidebar: SidebarWidget { rejected: true, ..self.sidebar },
                ..self
            }) && r == just(Transition::Redraw),
            AppEvent::SquareSelected(_) => next == self && r == just(Transition::Redraw),
            AppEvent::ExitToMenu => next == self && r == just(Transition::Pop),
            AppEvent::OpenGameActions => {
                &&& next == self
                &&& r.effect is None
                &&& r.transition matches Transition::Push(Screen::GameActions(g)) && g.is_new(
                    self.app,
                )
            },
            AppEvent::Expose => next == self.invalidated() && r == just(Transition::Redraw),
            _ => next == self && r == window_reaction(e),
        }
    }

    /// `next` and `r` are the screen and reaction after `e`. A touch goes to
    /// the board first, then to the sidebar, and whatever event the widget
    /// raises is handled as above; a touch that raises nothing redraws.
    pub open spec fn step(self, e: AppEvent, next: Self, r: Reaction) -> bool {
        match e {
            AppEvent::Touch(t) => {
                let (b, raised) = self.board.touch_outcome(t);
                let mid = ChessGameScreen { board: b, ..self };
                match raised {
                    Some(be) => mid.reacts(be, next, r),
                    None => match self.sidebar.touch_event(t) {
                        Some(se) => mid.reacts(se, next, r),
                        None => next == mid && r == just(Transition::Redraw),
                    },
                }
            },
            _ => self.reacts(e, next, r),
        }
    }

    /// Both widgets set to repaint in full.
    pub open spec fn invalidated(self) -> Self {
        ChessGameScreen {
            board: BoardWidget { force_full_repaint: true, ..self.board },
            sidebar: SidebarWidget { needs_full_repaint: true, ..self.sidebar },
            ..self
        }
    }

    pub fn new(app: ChessApp) -> (r: Self)
        ensures
            r.is_new(app),
            r.wf(),
    {
        let mut sidebar = SidebarWidget::new(Rectangle::new(0, 1072, 1072, 376));
        let ghost fresh = sidebar;
        match app.turn() {
            Some(turn) => sidebar.set_turn(turn.duplicate()),
            None => {},
        }
        ChessGameScreen {
            app,
            board: BoardWidget::new(Rectangle::new(0, 0, 1072, 1072)),
            sidebar,
            stream_started: false,
        }
    }

    /// On the first paint: start streaming the game, once (when the app is
    /// scoped to a game).
    pub fn start(&mut self) -> (r: Option<Effect>)
        ensures
            *final(self) == (ChessGameScreen { stream_started: true, ..*old(self) }),
            r == if old(self).stream_started {
                None
            } else {
                match in_game_api(old(self).app) {
                    Some(api) => Some(Effect::StreamGame(api)),
                    None => None,
                }
            },
    {
        if self.stream_started {
            return None;
        }
        self.stream_started = true;
        match self.app.online_in_game_api() {
            Some(api) => Some(Effect::StreamGame(api)),
            None => None,
        }
    }

    /// Back on top after the screen above closed: that screen drew over
    /// both widgets, so they repaint in full.
    pub fn on_reveal(&mut self)
        ensures
            *final(self) == old(self).invalidated(),
    {
        self.board.invalidate();
        self.sidebar.invalidate();
    }

    pub fn handle_event(&mut self, event: AppEvent) -> (r: Reaction)
        requires
            old(self).wf(),
            old(self).takes(event),
        ensures
            old(self).step(event, *final(self), r),
            final(self).wf(),
            r.transition matches Transition::Push(s) ==> s.wf(),
    {
        match event {
            AppEvent::Touch(touch) => {
                proof {
                    lemma_touched_square_on_board(
                        self.board.area,
                        self.board.flipped,
                        touch.x,
                        touch.y,
                    );
                }
                match self.board.handle_touch(&touch) {
                    Some(e) => self.react(e),
                    None => match self.sidebar.handle_touch(&touch) {
                        Some(e) => self.react(e),
                        None => Reaction::redraw(),
                    },
                }
            },
            _ => self.react(event),
        }
    }

    fn react(&mut self, event: AppEvent) -> (r: Reaction)
        requires
            old(self).wf(),
            old(self).takes(event),
        ensures
            old(self).reacts(event, *final(self), r),
            final(self).wf(),
            r.transition matches Transition::Push(s) ==> s.wf(),
    {
        match event {
            AppEvent::GameFullReceived { white, black, player0_white, turn, board, last_move } => {
                let opponent = if player0_white {
                    black.display_name()
                } else {
                    white.display_name()
                };
                self.sidebar.set_opponent(opponent);
                let recorded = turn.duplicate();
                self.app.apply_game_full(white, black, player0_white, recorded);
                self.board.set_flipped(!player0_white);
                self.board.set_position(board);
                self.board.set_last_move(last_move);
                self.sidebar.set_turn(turn);
                Reaction::redraw()
            },
            AppEvent::TurnChanged { turn, board, last_move } => {
                let recorded = turn.duplicate();
                self.app.apply_turn(recorded);
                self.board.set_position(board);
                self.board.set_last_move(last_move);
                self.sidebar.set_turn(turn);
                Reaction::redraw()
            },
            AppEvent::MoveMade(chess_move) => {
                let uci = match self.board.move_to_uci(chess_move) {
                    Some(u) => u,
                    None => return Reaction::redraw(),
                };
                let effect = match self.app.online_in_game_api() {
                    Some(api) => Some(Effect::SubmitMove(api, uci)),
                    None => None,
                };
                Reaction { transition: Transition::Redraw, effect }
            },
            AppEvent::MoveRejected => {
                self.sidebar.set_move_rejected();
                Reaction::redraw()
            },
            AppEvent::SquareSelected(_) => Reaction::redraw(),
            AppEvent::ExitToMenu => Reaction::pop(),
            AppEvent::OpenGameActions => Reaction::push(
                Screen::GameActions(GameActionsScreen::new(self.app.duplicate())),
            ),
            AppEvent::Expose => {
                self.board.invalidate();
                self.sidebar.invalidate();
                Reaction::redraw()
            },
            _ => Reaction::window(&event),
        }
    }
}

// ─── OngoingChessGamesScreen ─────────────────────────────────────────────────

/// Games shown per page.
pub const GAMES_PER_PAGE: usize = 4;

/// The signed-in user's ongoing games, four per page.
pub struct OngoingChessGamesScreen {
    pub app: ChessApp,
    pub prev_page_button: IconButton,
    pub next_page_button: IconButton,
    pub chessgame_button_0: Button,
    pub chessgame_button_1: Button,
    pub chessgame_button_2: Button,
    pub chessgame_button_3: Button,
    pub back_button: IconButton,
    /// The fetched games, once loaded.
    pub games: Option<GameDataList>,
    /// Why the list could not be had.
    pub error: Option<String>,
    /// A fetch is under way.
    pub loading: bool,
    pub page_index: usize,
}

/// The opponent as a game button names it: the user's name, or the AI and
/// its level when known.
pub open spec fn opponent_label(p: PlayedBy) -> Seq<char> {
    match p {
        PlayedBy::User(player) => player.name@,
        PlayedBy::Ai(computer) => match computer.ai_level {
            Some(level) => "AI lvl "@ + decimal(level as nat),
            None => "AI"@,
        },
    }
}

/// The label of a game's button: `VS <opponent>`, wrapped in `> … <` when
/// it is the user's turn.
pub open spec fn game_label(g: GameData) -> Seq<char> {
    let l = "VS "@ + opponent_label(g.opponent);
    if g.is_my_turn {
        "> "@ + l + " <"@
    } else {
        l
    }
}

/// Number of pages for `games`: four games a page, rounded up; none
/// before the list has loaded.
pub open spec fn page_count_of(games: Option<GameDataList>) -> nat {
    match games {
        Some(g) => ((g.now_playing.len() + 3) / 4) as nat,
        None => 0,
    }
}

/// Paging reaches every game and no empty page: game `i` sits in slot
/// `i % 4` of page `i / 4`, a page below the page count, and the last page
/// holds a game.
pub proof fn lemma_pages_cover_games(list: GameDataList)
    ensures
        forall|i: int|
            0 <= i < list.now_playing.len() ==> i / 4 < page_count_of(Some(list)) && #[trigger]
                game_in_slot(list, i / 4, i % 4) == Some(list.now_playing@[i]),
        page_count_of(Some(list)) > 0 ==> game_in_slot(list, page_count_of(Some(list)) - 1, 0) is Some,
        list.now_playing.len() == 0 ==> page_count_of(Some(list)) == 0,
{
}

/// The game behind slot `k` of page `page`, if there is one.
pub open spec fn game_in_slot(list: GameDataList, page: int, k: int) -> Option<GameData> {
    let i = page * 4 + k;
    if 0 <= i < list.now_playing.len() {
        Some(list.now_playing@[i])
    } else {
        None
    }
}

/// The label of slot `k` of page `page`: its game's label, or `-` for an
/// empty slot.
pub open spec fn slot_label(list: GameDataList, page: int, k: int) -> Seq<char> {
    match game_in_slot(list, page, k) {
        Some(g) => game_label(g),
        None => "-"@,
    }
}

/// A slot of the game list reads "-" exactly when no game falls in it:
/// the label of a game is never "-".
pub proof fn lemma_slot_label_dash(list: GameDataList, page: int, k: int)
    ensures
        (slot_label(list, page, k) == "-"@) <==> game_in_slot(list, page, k) is None,
{
    reveal_strlit("-");
    reveal_strlit("VS ");
    reveal_strlit("> ");
    reveal_strlit(" <");
    if let Some(g) = game_in_slot(list, page, k) {
        assert(game_label(g).len() >= 3);
    }
}

fn opponent_text(p: &PlayedBy) -> (r: String)
    ensures
        r@ == opponent_label(*p),
{
    match p {
        PlayedBy::User(player) => copy_string(&player.name),
        PlayedBy::Ai(computer) => match computer.ai_level {
            Some(level) => {
                let mut s = string_of("AI lvl ");
                push_decimal(&mut s, level as u64);
                s
            },
            None => string_of("AI"),
        },
    }
}

fn game_text(g: &GameData) -> (r: String)
    ensures
        r@ == game_label(*g),
{
    let opp = opponent_text(&g.opponent);
    let mut l = string_of("VS ");
    push_str(&mut l, opp.as_str());
    if g.is_my_turn {
        let mut w = string_of("> ");
        push_str(&mut w, l.as_str());
        push_str(&mut w, " <");
        w
    } else {
        l
    }
}

fn slot_text(list: &GameDataList, page: usize, k: usize) -> (r: String)
    requires
        page * 4 + k <= usize::MAX,
    ensures
        r@ == slot_label(*list, page as int, k as int),
{
    let i = page * 4 + k;
    if i < list.now_playing.len() {
        game_text(&list.now_playing[i])
    } else {
        string_of("-")
    }
}

impl OngoingChessGamesScreen {
    /// Game button `k` (0 to 3: top left, top right, bottom left, bottom
    /// right).
    pub open spec fn slot_button(self, k: int) -> Button {
        if k == 0 {
            self.chessgame_button_0
        } else if k == 1 {
            self.chessgame_button_1
        } else if k == 2 {
            self.chessgame_button_2
        } else {
            self.chessgame_button_3
        }
    }

    /// The first game button, in slot order, that a touch at (`x`, `y`)
    /// hits.
    pub open spec fn slot_hit(self, x: i16, y: i16) -> Option<int> {
        if rect_contains(self.chessgame_button_0.rect, x, y) {
            Some(0)
        } else if rect_contains(self.chessgame_button_1.rect, x, y) {
            Some(1)
        } else if rect_contains(self.chessgame_button_2.rect, x, y) {
            Some(2)
        } else if rect_contains(self.chessgame_button_3.rect, x, y) {
            Some(3)
        } else {
            None
        }
    }

    /// The game behind slot `k` of the current page.
    pub open spec fn slot_game(self, k: int) -> Option<GameData> {
        match self.games {
            Some(list) => game_in_slot(list, self.page_index as int, k),
            None => None,
        }
    }

    /// `next` is this screen turned to page `index`: with the list loaded,
    /// each game button is relabelled for that page; before it loads only
    /// the page number changes.
    pub open spec fn paged(self, index: int, next: Self) -> bool {
        &&& next == (OngoingChessGamesScreen {
            page_index: index as usize,
            chessgame_button_0: Button {
                label: next.chessgame_button_0.label,
                ..self.chessgame_button_0
            },
            chessgame_button_1: Button {
                label: next.chessgame_button_1.label,
                ..self.chessgame_button_1
            },
            chessgame_button_2: Button {
                label: next.chessgame_button_2.label,
                ..self.chessgame_button_2
            },
            chessgame_button_3: Button {
                label: next.chessgame_button_3.label,
                ..self.chessgame_button_3
            },
            ..self
        })
        &&& match self.games {
            Some(list) => forall|k: int|
                0 <= k < 4 ==> #[trigger] next.slot_button(k).label@ == slot_label(list, index, k),
            None => forall|k: int| 0 <= k < 4 ==> #[trigger] next.slot_button(k) == self.slot_button(k),
        }
    }

    /// The buttons can be hit-tested, and page and list are small enough
    /// for slot indices to be computed.
    pub open spec fn wf(self) -> bool {
        &&& rect_fits(self.prev_page_button.rect)
        &&& rect_fits(self.next_page_button.rect)
        &&& rect_fits(self.back_button.rect)
        &&& rect_fits(self.chessgame_button_0.rect)
        &&& rect_fits(self.chessgame_button_1.rect)
        &&& rect_fits(self.chessgame_button_2.rect)
        &&& rect_fits(self.chessgame_button_3.rect)
        &&& self.page_index * 4 + 3 <= usize::MAX
        &&& self.games matches Some(list) ==> list.now_playing.len() + 3 <= usize::MAX
    }

    /// The events this screen can take: a loaded list fits the slot
    /// arithmetic.
    pub open spec fn takes(self, e: AppEvent) -> bool {
        e matches AppEvent::OngoingGamesLoaded(list) ==> list.now_playing.len() + 3 <= usize::MAX
    }

    /// `next` and `r` are the screen and reaction after `e`. A loaded list
    /// is labelled onto the current page; a failure is kept for display.
    /// A release on back returns; next and previous turn the page within
    /// the list; a game button opens its game (moving the app into it),
    /// and an empty slot does nothing.
    pub open spec fn step(self, e: AppEvent, next: Self, r: Reaction) -> bool {
        match e {
            AppEvent::OngoingGamesLoaded(list) => {
                &&& (OngoingChessGamesScreen { games: Some(list), loading: false, ..self }).paged(
                    self.page_index as int,
                    next,
                )
                &&& r == just(Transition::Redraw)
            },
            AppEvent::OngoingGamesFailed(msg) => next == (OngoingChessGamesScreen {
                error: Some(msg),
                loading: false,
                ..self
            }) && r == just(Transition::Redraw),
            AppEvent::Touch(t) => if t.kind != TouchKind::Up {
                next == self && r == just(Transition::Stay)
            } else if rect_contains(self.back_button.rect, t.x, t.y) {
                next == self && r == just(Transition::Pop)
            } else if rect_contains(self.next_page_button.rect, t.x, t.y) {
                if self.page_index + 1 < page_count_of(self.games) {
                    self.paged(self.page_index + 1, next) && r == just(Transition::Redraw)
                } else {
                    next == self && r == just(Transition::Stay)
                }
            } else if rect_contains(self.prev_page_button.rect, t.x, t.y) {
                if self.page_index > 0 {
                    self.paged(self.page_index - 1, next) && r == just(Transition::Redraw)
                } else {
                    next == self && r == just(Transition::Stay)
                }
            } else {
                &&& next == self
                &&& r.effect is None
                &&& match self.slot_hit(t.x, t.y) {
                    Some(k) => match self.slot_game(k) {
                        Some(g) => r.transition matches Transition::Push(Screen::ChessGame(s)) && (
                        self.app.attached(g.game_id, g.is_my_turn, s.app) && s.is_new(s.app)),
                        None => r.transition == Transition::Stay,
                    },
                    None => r.transition == Transition::Stay,
                }
            },
            AppEvent::Expose => next == self && r == just(Transition::Redraw),
            _ => next == self && r == window_reaction(e),
        }
    }

    /// `self` is the screen `new` builds for `app`: a 2 × 2 grid of
    /// 400 × 120 game buttons around the centre, page buttons and back at
    /// the bottom, nothing loaded.
    pub open spec fn is_new(self, app: ChessApp) -> bool {
        &&& self.app == app
        &&& icon_button_is(self.prev_page_button, 394, 1302, "back-page.png"@)
        &&& icon_button_is(self.next_page_button, 544, 1302, "next-page.png"@)
        &&& button_is(self.chessgame_button_0, 128, 654, 400, 120, "-"@, 40)
        &&& button_is(self.chessgame_button_1, 544, 654, 400, 120, "-"@, 40)
        &&& button_is(self.chessgame_button_2, 128, 794, 400, 120, "-"@, 40)
        &&& button_is(self.chessgame_button_3, 544, 794, 400, 120, "-"@, 40)
        &&& icon_button_is(self.back_button, 99, 1302, "back-nav.png"@)
        &&& self.games is None
        &&& self.error is None
        &&& !self.loading
        &&& self.page_index == 0
    }

    pub fn new(app: ChessApp) -> (r: Self)
        ensures
            r.is_new(app),
            r.wf(),
    {
        let btn_w: u16 = 800;
        let btn_h: u16 = 120;
        let center_x: i16 = 1072 / 2;
        let center_y: i16 = 1448 / 2;
        let icon = ICON_BUTTON_SIZE as i16;
        let bottom = center_y * 2 - (icon - 20) - 32;
        let left = center_x - (8 + btn_w as i16 / 2);
        let right = center_x + 8;
        let upper = center_y - (btn_h as i16 / 2 + 10);
        let lower = center_y + (btn_h as i16 / 2 + 10);
        OngoingChessGamesScreen {
            app,
            prev_page_button: IconButton::new(center_x - (icon + 8), bottom, "back-page.png"),
            next_page_button: IconButton::new(center_x + 8, bottom, "next-page.png"),
            chessgame_button_0: Button::new(left, upper, btn_w / 2, btn_h, string_of("-"), 40, true),
            chessgame_button_1: Button::new(right, upper, btn_w / 2, btn_h, string_of("-"), 40, true),
            chessgame_button_2: Button::new(left, lower, btn_w / 2, btn_h, string_of("-"), 40, true),
            chessgame_button_3: Button::new(right, lower, btn_w / 2, btn_h, string_of("-"), 40, true),
            back_button: IconButton::new(32 + icon / 2, bottom, "back-nav.png"),
            games: None,
            error: None,
            loading: false,
            page_index: 0,
        }
    }

    pub fn page_count(&self) -> (r: usize)
        ensures
            r == page_count_of(self.games),
    {
        match &self.games {
            Some(g) => {
                let n = g.now_playing.len();
                n / GAMES_PER_PAGE + if n % GAMES_PER_PAGE != 0 {
                    1
                } else {
                    0
                }
            },
            None => 0,
        }
    }

    /// Turn to page `index`, relabelling the game buttons for it.
    fn set_page(&mut self, index: usize)
        requires
            index * 4 + 3 <= usize::MAX,
        ensures
            old(self).paged(index as int, *final(self)),
    {
        self.page_index = index;
        let (l0, l1, l2, l3) = match &self.games {
            None => return,
            Some(g) => (
                slot_text(g, index, 0),
                slot_text(g, index, 1),
                slot_text(g, index, 2),
                slot_text(g, index, 3),
            ),
        };
        self.chessgame_button_0.label = l0;
        self.chessgame_button_1.label = l1;
        self.chessgame_button_2.label = l2;
        self.chessgame_button_3.label = l3;
    }

    /// The game behind game button `k` on the current page; `None` for an
    /// empty slot.
    pub fn game_at_slot(&self, k: usize) -> (r: Option<&GameData>)
        requires
            self.page_index * 4 + k <= usize::MAX,
        ensures
            match self.slot_game(k as int) {
                Some(g) => r matches Some(x) && *x == g,
                None => r is None,
            },
    {
        match &self.games {
            None => None,
            Some(g) => {
                let i = self.page_index * GAMES_PER_PAGE + k;
                if i < g.now_playing.len() {
                    Some(&g.now_playing[i])
                } else {
                    None
                }
            },
        }
    }

    /// On a paint: fetch the list if nothing is loaded, failed or under
    /// way. Without an online backend there is nothing to fetch and that
    /// is kept as the error.
    /// `next` and `r` are the screen and work after a paint: with nothing
    /// loaded, failed or under way, the list is fetched through the online
    /// client; without one, that is kept as the error.
    pub open spec fn fetch_started(self, next: Self, r: Option<Effect>) -> bool {
        if self.games is None && self.error is None && !self.loading {
            match idle_api(self.app) {
                Some(api) => next == (OngoingChessGamesScreen { loading: true, ..self }) && r == Some(
                    Effect::FetchOngoingGames(api),
                ),
                None => {
                    &&& next == (OngoingChessGamesScreen { error: next.error, ..self })
                    &&& next.error matches Some(m) && m@ == "Offline backend has no ongoing games"@
                    &&& r is None
                },
            }
        } else {
            next == self && r is None
        }
    }

    pub fn start(&mut self) -> (r: Option<Effect>)
        ensures
            old(self).fetch_started(*final(self), r),
    {
        if self.games.is_some() || self.error.is_some() || self.loading {
            return None;
        }
        match self.app.online_idle_api() {
            None => {
                self.error = Some(string_of("Offline backend has no ongoing games"));
                None
            },
            Some(api) => {
                self.loading = true;
                Some(Effect::FetchOngoingGames(api))
            },
        }
    }

    /// Back on top after a game: drop the list so it is fetched afresh.
    pub fn on_reveal(&mut self)
        ensures
            *final(self) == (OngoingChessGamesScreen { games: None, error: None, ..*old(self) }),
    {
        self.games = None;
        self.error = None;
    }

    pub fn handle_event(&mut self, event: AppEvent) -> (r: Reaction)
        requires
            old(self).wf(),
            old(self).takes(event),
        ensures
            old(self).step(event, *final(self), r),
            final(self).wf(),
            r.transition matches Transition::Push(s) ==> s.wf(),
    {
        match event {
            AppEvent::OngoingGamesLoaded(list) => {
                self.games = Some(list);
                self.loading = false;
                let i = self.page_index;
                self.set_page(i);
                Reaction::redraw()
            },
            AppEvent::OngoingGamesFailed(msg) => {
                self.error = Some(msg);
                self.loading = false;
                Reaction::redraw()
            },
            AppEvent::Touch(touch) => {
                if touch.kind != TouchKind::Up {
                    return Reaction::stay();
                }
                if self.back_button.rect.contains(touch.x, touch.y) {
                    return Reaction::pop();
                }
                if self.next_page_button.rect.contains(touch.x, touch.y) {
                    let count = self.page_count();
                    let last = if count > 0 {
                        count - 1
                    } else {
                        0
                    };
                    if self.page_index < last {
                        let i = self.page_index + 1;
                        self.set_page(i);
                        return Reaction::redraw();
                    }
                    return Reaction::stay();
                }
                if self.prev_page_button.rect.contains(touch.x, touch.y) {
                    if self.page_index > 0 {
                        let i = self.page_index - 1;
                        self.set_page(i);
                        return Reaction::redraw();
                    }
                    return Reaction::stay();
                }
                let k: usize = if self.chessgame_button_0.rect.contains(touch.x, touch.y) {
                    0
                } else if self.chessgame_button_1.rect.contains(touch.x, touch.y) {
                    1
                } else if self.chessgame_button_2.rect.contains(touch.x, touch.y) {
                    2
                } else if self.chessgame_button_3.rect.contains(touch.x, touch.y) {
                    3
                } else {
                    return Reaction::stay();
                };
                match self.game_at_slot(k) {
                    None => Reaction::stay(),
                    Some(game) => {
                        let id = copy_string(&game.game_id);
                        let my_turn = game.is_my_turn;
                        let app = self.app.duplicate().attach_game(id, my_turn);
                        Reaction::push(Screen::ChessGame(ChessGameScreen::new(app)))
                    },
                }
            },
            AppEvent::Expose => Reaction::redraw(),
            _ => Reaction::window(&event),
        }
    }
}

} // verus!
