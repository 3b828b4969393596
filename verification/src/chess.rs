//! The chess backend the screens share: online (idle or scoped to a game)
//! or offline.

use crate::board_api::{BoardAPI, BoardLocal, Idle, InGame, PlayedBy, Turn};
use crate::oauth::{LichessUser, TokenInfo};
use vstd::prelude::*;

verus! {

#[derive(Debug, Clone)]
pub enum ChessBackend {
    Offline(BoardLocal),
    OnlineIdle(BoardAPI<Idle>),
    OnlineInGame(BoardAPI<InGame>),
}

#[derive(Debug, Clone)]
pub struct ChessApp {
    pub backend: ChessBackend,
}

/// The OAuth token backing `app`; `None` for the offline backend.
pub open spec fn app_token(app: ChessApp) -> Option<TokenInfo> {
    match app.backend {
        ChessBackend::OnlineIdle(api) => Some(api.token),
        ChessBackend::OnlineInGame(api) => Some(api.token),
        ChessBackend::Offline(_) => None,
    }
}

/// The in-game client of `app`, if it is scoped to a game.
pub open spec fn in_game_api(app: ChessApp) -> Option<BoardAPI<InGame>> {
    match app.backend {
        ChessBackend::OnlineInGame(api) => Some(api),
        _ => None,
    }
}

/// `app` after the game stream's first full snapshot: both sides, the
/// local player's colour and the turn are recorded when `app` is scoped to
/// a game; any other backend is left as it is.
pub open spec fn with_game_full(app: ChessApp, white: PlayedBy, black: PlayedBy, player0_white: bool, turn: Turn) -> ChessApp {
    match app.backend {
        ChessBackend::OnlineInGame(api) => ChessApp {
            backend: ChessBackend::OnlineInGame(
                BoardAPI {
                    state: InGame {
                        white: Some(white),
                        black: Some(black),
                        player0_white,
                        turn,
                        ..api.state
                    },
                    ..api
                },
            ),
        },
        _ => app,
    }
}

/// `app` after a turn change: recorded when scoped to a game, otherwise
/// nothing changes.
pub open spec fn with_turn(app: ChessApp, turn: Turn) -> ChessApp {
    match app.backend {
        ChessBackend::OnlineInGame(api) => ChessApp {
            backend: ChessBackend::OnlineInGame(
                BoardAPI { state: InGame { turn, ..api.state }, ..api },
            ),
        },
        _ => app,
    }
}

/// The idle online client of `app`, if it has one.
pub open spec fn idle_api(app: ChessApp) -> Option<BoardAPI<Idle>> {
    match app.backend {
        ChessBackend::OnlineIdle(api) => Some(api),
        _ => None,
    }
}

impl ChessApp {
    /// `after` is this app moved into game `game_id`: an idle online
    /// backend becomes scoped to the game, with the same token and user, no
    /// sides known yet, and the turn seeded from `my_turn`; any other
    /// backend is unchanged.
    pub open spec fn attached(self, game_id: String, my_turn: bool, after: ChessApp) -> bool {
        match self.backend {
            ChessBackend::OnlineIdle(api) => after.backend matches ChessBackend::OnlineInGame(g)
                && g.token == api.token && g.user == api.user && g.state.game_id == game_id
                && g.state.white is None && g.state.black is None && g.state.turn == if my_turn {
                Turn::Playing
            } else {
                Turn::Waiting
            },
            _ => after == self,
        }
    }

    /// A copy of the app and its backend.
    pub fn duplicate(&self) -> (r: Self)
        ensures
            r == *self,
    {
        let backend = match &self.backend {
            ChessBackend::Offline(b) => ChessBackend::Offline(
                BoardLocal { player0_white: b.player0_white, player0_turn: b.player0_turn },
            ),
            ChessBackend::OnlineIdle(api) => ChessBackend::OnlineIdle(api.duplicate()),
            ChessBackend::OnlineInGame(api) => ChessBackend::OnlineInGame(api.duplicate()),
        };
        ChessApp { backend }
    }

    /// An online backend with no game scoped yet.
    pub fn new_online(token: TokenInfo, user: LichessUser) -> (r: ChessApp)
        ensures
            r.backend matches ChessBackend::OnlineIdle(api) && api.token == token && api.user
                == user,
    {
        Self { backend: ChessBackend::OnlineIdle(BoardAPI::<Idle>::new(token, user)) }
    }

    pub fn new_offline() -> (r: ChessApp)
        ensures
            r.backend matches ChessBackend::Offline(b) && b.player0_white && b.player0_turn,
    {
        let board_local = BoardLocal::new(String::new());
        Self { backend: ChessBackend::Offline(board_local) }
    }

    /// Move an idle online backend into game `game_id`; `my_turn` seeds the
    /// turn shown before the game stream takes over. Any other backend is
    /// returned unchanged.
    pub fn attach_game(self, game_id: String, my_turn: bool) -> (r: Self)
        ensures
            self.attached(game_id, my_turn, r),
    {
        let backend = match self.backend {
            ChessBackend::OnlineIdle(api) => ChessBackend::OnlineInGame(
                api.attach_game(game_id, my_turn),
            ),
            other => other,
        };
        Self { backend }
    }

    /// A copy of the idle online client, for tasks that only need the auth
    /// scope (such as the ongoing-games fetch).
    pub fn online_idle_api(&self) -> (r: Option<BoardAPI<Idle>>)
        ensures
            r is Some <==> self.backend is OnlineIdle,
            r matches Some(c) ==> self.backend matches ChessBackend::OnlineIdle(api) && c == api,
    {
        match &self.backend {
            ChessBackend::OnlineIdle(api) => Some(api.duplicate()),
            _ => None,
        }
    }

    /// A copy of the in-game client, for tasks scoped to the game (stream,
    /// move submission).
    pub fn online_in_game_api(&self) -> (r: Option<BoardAPI<InGame>>)
        ensures
            r is Some <==> self.backend is OnlineInGame,
            r matches Some(c) ==> self.backend matches ChessBackend::OnlineInGame(api) && c == api,
    {
        match &self.backend {
            ChessBackend::OnlineInGame(api) => Some(api.duplicate()),
            _ => None,
        }
    }

    pub fn turn(&self) -> (r: Option<&Turn>)
        ensures
            match self.backend {
                ChessBackend::OnlineInGame(api) => r == Some(&api.state.turn),
                _ => r is None,
            },
    {
        match &self.backend {
            ChessBackend::OnlineInGame(api) => Some(&api.state.turn),
            _ => None,
        }
    }

    /// The OAuth token backing this app; `None` for the offline backend.
    pub fn token(&self) -> (r: Option<TokenInfo>)
        ensures
            r == app_token(*self),
    {
        match &self.backend {
            ChessBackend::OnlineIdle(api) => Some(api.token.duplicate()),
            ChessBackend::OnlineInGame(api) => Some(api.token.duplicate()),
            ChessBackend::Offline(_) => None,
        }
    }

    /// Record the initial `GameFull` snapshot; a no-op unless in a game.
    pub fn apply_game_full(&mut self, white: PlayedBy, black: PlayedBy, player0_white: bool, turn: Turn)
        ensures
            *final(self) == with_game_full(*old(self), white, black, player0_white, turn),
    {
        if let ChessBackend::OnlineInGame(api) = &mut self.backend {
            api.state.white = Some(white);
            api.state.black = Some(black);
            api.state.player0_white = player0_white;
            api.state.turn = turn;
        }
    }

    /// Record a turn change; a no-op unless in a game.
    pub fn apply_turn(&mut self, turn: Turn)
        ensures
            *final(self) == with_turn(*old(self), turn),
    {
        if let ChessBackend::OnlineInGame(api) = &mut self.backend {
            api.state.turn = turn;
        }
    }
}

} // verus!
