//! Navigation between screens. A screen reacts to each event with a
//! `Reaction`: where to go next (`Transition`) and, optionally, work for the
//! application to carry out (`Effect`): a background task, or a message
//! posted back on the event channel. The application runs the event loop,
//! draws, and performs the effects.

use crate::board_api::{BoardAPI, Idle, InGame};
use crate::chess::ChessBackend;
use crate::oauth::LichessUser;
use crate::events::AppEvent;
use crate::game_screens::{ChessGameScreen, OngoingChessGamesScreen};
use crate::github::UpdateInfo;
use crate::menus::{
    ChessAuthScreen, GameActionsScreen, HomeScreen, PuzzleSettingsScreen, SettingsScreen,
    UpdateScreen,
};
use crate::oauth::TokenInfo;
use crate::puzzle::PuzzleParams;
use crate::puzzle_screen::PuzzleScreen;
use vstd::prelude::*;

verus! {

/// Work a screen hands to the application.
#[derive(Debug, Clone)]
pub enum Effect {
    /// Post an event on the application's own event channel.
    Post(AppEvent),
    /// Validate the cached token, if any; post `ChessReady` or `AuthFailed`.
    CheckCachedToken,
    /// Run the QR authorisation flow: post `QrReady`, then `AuthSuccess`
    /// or `AuthFailed`.
    Authenticate,
    /// Stream the game's state as `GameFullReceived` and `TurnChanged`.
    StreamGame(BoardAPI<InGame>),
    /// Submit a move (UCI); post `MoveRejected` if the server refuses it.
    SubmitMove(BoardAPI<InGame>, String),
    /// Resign the game.
    Resign(BoardAPI<InGame>),
    /// Abort the game.
    Abort(BoardAPI<InGame>),
    /// Fetch up to eight ongoing games; post `OngoingGamesLoaded` or
    /// `OngoingGamesFailed`.
    FetchOngoingGames(BoardAPI<Idle>),
    /// Look for a newer release; post `UpdateAvailable`, `UpdateUpToDate`
    /// or `UpdateCheckFailed`.
    CheckForUpdate,
    /// Download, verify and install the update; post `UpdateApplied` or
    /// `UpdateApplyFailed`.
    ApplyUpdate(UpdateInfo),
    /// Fetch the opening puzzle (the daily one, or a fresh one when the
    /// account already played it); post `PuzzleLoaded` or
    /// `PuzzleLoadFailed`.
    FetchHomePuzzle(Option<TokenInfo>, PuzzleParams),
    /// Fetch a puzzle for these parameters; post `PuzzleLoaded` or
    /// `PuzzleLoadFailed`.
    FetchNextPuzzle(Option<TokenInfo>, PuzzleParams),
    /// Post `PuzzleOpponentMove` after about a second.
    PuzzleReplyLater,
}

/// Where navigation goes after an event.
pub enum Transition {
    /// Keep the current screen; nothing to redraw.
    Stay,
    /// Keep the current screen and redraw it.
    Redraw,
    /// Open a new screen on top.
    Push(Screen),
    /// Return to the screen below.
    Pop,
    /// Exit the application.
    Quit,
}

/// A screen's answer to an event.
pub struct Reaction {
    pub transition: Transition,
    pub effect: Option<Effect>,
}

/// A reaction with no effect.
pub open spec fn just(t: Transition) -> Reaction {
    Reaction { transition: t, effect: None }
}

/// How most screens treat the events they have no use for: an exposed
/// window is redrawn, `Quit` quits, anything else is ignored.
pub open spec fn window_reaction(e: AppEvent) -> Reaction {
    match e {
        AppEvent::Expose => just(Transition::Redraw),
        AppEvent::Quit => just(Transition::Quit),
        _ => just(Transition::Stay),
    }
}

impl Reaction {
    pub fn stay() -> (r: Self)
        ensures
            r == just(Transition::Stay),
    {
        Reaction { transition: Transition::Stay, effect: None }
    }

    pub fn redraw() -> (r: Self)
        ensures
            r == just(Transition::Redraw),
    {
        Reaction { transition: Transition::Redraw, effect: None }
    }

    pub fn pop() -> (r: Self)
        ensures
            r == just(Transition::Pop),
    {
        Reaction { transition: Transition::Pop, effect: None }
    }

    pub fn push(s: Screen) -> (r: Self)
        ensures
            r == just(Transition::Push(s)),
    {
        Reaction { transition: Transition::Push(s), effect: None }
    }

    /// The reaction of `window_reaction`.
    pub fn window(e: &AppEvent) -> (r: Self)
        ensures
            r == window_reaction(*e),
    {
        match e {
            AppEvent::Expose => Reaction::redraw(),
            AppEvent::Quit => Reaction { transition: Transition::Quit, effect: None },
            _ => Reaction::stay(),
        }
    }
}

/// One of the application's screens.
pub enum Screen {
    Home(HomeScreen),
    ChessAuth(ChessAuthScreen),
    ChessGame(ChessGameScreen),
    OngoingGames(OngoingChessGamesScreen),
    Settings(SettingsScreen),
    Update(UpdateScreen),
    Puzzle(PuzzleScreen),
    PuzzleSettings(PuzzleSettingsScreen),
    GameActions(GameActionsScreen),
}

impl Screen {
    /// The screen's own well-formedness (see each screen's `wf`).
    pub open spec fn wf(self) -> bool {
        match self {
            Screen::Home(s) => s.wf(),
            Screen::ChessAuth(_) => true,
            Screen::ChessGame(s) => s.wf(),
            Screen::OngoingGames(s) => s.wf(),
            Screen::Settings(s) => s.wf(),
            Screen::Update(s) => s.wf(),
            Screen::Puzzle(s) => s.wf(),
            Screen::PuzzleSettings(s) => s.wf(),
            Screen::GameActions(s) => s.wf(),
        }
    }

    /// The screen can take event `e` (see each screen's `takes`).
    pub open spec fn takes(self, e: AppEvent) -> bool {
        match self {
            Screen::ChessGame(s) => s.takes(e),
            Screen::OngoingGames(s) => s.takes(e),
            Screen::Puzzle(s) => s.takes(e),
            _ => true,
        }
    }

    /// `next` and `r` are the screen and reaction after `e`, as the screen
    /// in question defines them.
    pub open spec fn step(self, e: AppEvent, next: Screen, r: Reaction) -> bool {
        match self {
            Screen::Home(s) => next matches Screen::Home(n) && s.step(e, n, r),
            Screen::ChessAuth(s) => next matches Screen::ChessAuth(n) && s.step(e, n, r),
            Screen::ChessGame(s) => next matches Screen::ChessGame(n) && s.step(e, n, r),
            Screen::OngoingGames(s) => next matches Screen::OngoingGames(n) && s.step(e, n, r),
            Screen::Settings(s) => next matches Screen::Settings(n) && s.step(e, n, r),
            Screen::Update(s) => next matches Screen::Update(n) && s.step(e, n, r),
            Screen::Puzzle(s) => next matches Screen::Puzzle(n) && s.step(e, n, r),
            Screen::PuzzleSettings(s) => next matches Screen::PuzzleSettings(n) && s.step(e, n, r),
            Screen::GameActions(s) => next matches Screen::GameActions(n) && s.step(e, n, r),
        }
    }

    /// `next` and `r` are the screen and the background work after a paint:
    /// the first paint of the home, sign-in, game, updater and puzzle
    /// screens starts their task; the ongoing-games screen fetches its list
    /// whenever it has none.
    pub open spec fn started(self, next: Screen, r: Option<Effect>) -> bool {
        match self {
            Screen::Home(s) => next == Screen::Home(HomeScreen { auth_started: true, ..s }) && r
                == if s.auth_started {
                None
            } else {
                Some(Effect::CheckCachedToken)
            },
            Screen::ChessAuth(s) => next == Screen::ChessAuth(
                ChessAuthScreen { auth_started: true, ..s },
            ) && r == if s.auth_started {
                None
            } else {
                Some(Effect::Authenticate)
            },
            Screen::ChessGame(s) => next == Screen::ChessGame(
                ChessGameScreen { stream_started: true, ..s },
            ) && r == if s.stream_started {
                None
            } else {
                match crate::chess::in_game_api(s.app) {
                    Some(api) => Some(Effect::StreamGame(api)),
                    None => None,
                }
            },
            Screen::OngoingGames(s) => next matches Screen::OngoingGames(n) && s.fetch_started(
                n,
                r,
            ),
            Screen::Update(s) => next == Screen::Update(UpdateScreen { check_started: true, ..s })
                && r == if s.check_started {
                None
            } else {
                Some(Effect::CheckForUpdate)
            },
            Screen::Puzzle(s) => next == Screen::Puzzle(PuzzleScreen { load_started: true, ..s })
                && r == if s.load_started {
                None
            } else {
                Some(Effect::FetchHomePuzzle(s.token, s.params))
            },
            _ => next == self && r is None,
        }
    }

    /// The screen after it is back on top: screens that repaint in part
    /// repaint in full, the ongoing games are fetched afresh, the rest stay
    /// as they are.
    pub open spec fn revealed(self) -> Screen {
        match self {
            Screen::ChessGame(s) => Screen::ChessGame(s.invalidated()),
            Screen::OngoingGames(s) => Screen::OngoingGames(
                OngoingChessGamesScreen { games: None, error: None, ..s },
            ),
            Screen::Puzzle(s) => Screen::Puzzle(s.invalidated()),
            _ => self,
        }
    }

    pub fn handle_event(&mut self, event: AppEvent) -> (r: Reaction)
        requires
            old(self).wf(),
            old(self).takes(event),
        ensures
            old(self).step(event, *final(self), r),
            final(self).wf(),
            r.transition matches Transition::Push(s) ==> s.wf(),
    {
        match self {
            Screen::Home(s) => s.handle_event(event),
            Screen::ChessAuth(s) => s.handle_event(event),
            Screen::ChessGame(s) => s.handle_event(event),
            Screen::OngoingGames(s) => s.handle_event(event),
            Screen::Settings(s) => s.handle_event(event),
            Screen::Update(s) => s.handle_event(event),
            Screen::Puzzle(s) => s.handle_event(event),
            Screen::PuzzleSettings(s) => s.handle_event(event),
            Screen::GameActions(s) => s.handle_event(event),
        }
    }

    /// Called before each paint.
    pub fn start(&mut self) -> (r: Option<Effect>)
        ensures
            old(self).started(*final(self), r),
            old(self).wf() ==> final(self).wf(),
    {
        match self {
            Screen::Home(s) => s.start(),
            Screen::ChessAuth(s) => s.start(),
            Screen::ChessGame(s) => s.start(),
            Screen::OngoingGames(s) => s.start(),
            Screen::Update(s) => s.start(),
            Screen::Puzzle(s) => s.start(),
            _ => None,
        }
    }

    /// Called when the screen is back on top because the one above closed.
    pub fn on_reveal(&mut self)
        ensures
            *final(self) == old(self).revealed(),
    {
        match self {
            Screen::ChessGame(s) => s.on_reveal(),
            Screen::OngoingGames(s) => s.on_reveal(),
            Screen::Puzzle(s) => s.on_reveal(),
            _ => {},
        }
    }
}

/// Signing in reaches the home screen. After a successful authorisation
/// the sign-in screen posts the ready app; taking it back, the sign-in
/// screen passes it on and closes; the home screen below takes it and its
/// buttons come alive with that token and user.
pub proof fn lemma_sign_in_reaches_home(
    auth: ChessAuthScreen,
    token: TokenInfo,
    user: LichessUser,
    auth2: ChessAuthScreen,
    r1: Reaction,
    e1: AppEvent,
    auth3: ChessAuthScreen,
    r2: Reaction,
    e2: AppEvent,
    home: HomeScreen,
    home2: HomeScreen,
    r3: Reaction,
)
    requires
        auth.step(AppEvent::AuthSuccess(token, user), auth2, r1),
        r1.effect == Some(Effect::Post(e1)),
        auth2.step(e1, auth3, r2),
        r2.effect == Some(Effect::Post(e2)),
        home.step(e2, home2, r3),
    ensures
        r1.transition == Transition::Stay,
        r2.transition == Transition::Pop,
        home2.app matches Some(app) && (app.backend matches ChessBackend::OnlineIdle(api)
            && api.token == token && api.user == user),
        r3 == just(Transition::Redraw),
{
}

/// The parameters chosen on the puzzle settings screen reach the fetch: the
/// only event it posts is the parameters as it closes, and the puzzle
/// screen below adopts them, shows "Loading…" and fetches a puzzle for them
/// with its own token.
pub proof fn lemma_settings_reach_fetch(
    settings: PuzzleSettingsScreen,
    e: AppEvent,
    settings2: PuzzleSettingsScreen,
    r: Reaction,
    posted: AppEvent,
    puzzle: PuzzleScreen,
    puzzle2: PuzzleScreen,
    r2: Reaction,
)
    requires
        settings.step(e, settings2, r),
        r.effect == Some(Effect::Post(posted)),
        puzzle.step(posted, puzzle2, r2),
    ensures
        r.transition == Transition::Pop,
        posted == AppEvent::ApplyPuzzleParams(settings.params),
        puzzle2.params == settings.params,
        puzzle2.sidebar.status_text@ == "Loading…"@,
        r2 == (Reaction {
            transition: Transition::Redraw,
            effect: Some(Effect::FetchNextPuzzle(puzzle.token, settings.params)),
        }),
{
}

} // verus!
