//! The Lichess board-play client state: `BoardAPI<S>` with the typestate
//! markers `Idle` and `InGame`, the turn indicator, opponents, and the
//! ongoing-games list. The network calls that go with it live in the
//! application.

use crate::bitboard::Bitboards;
use crate::oauth::{LichessUser, TokenInfo};
use crate::text::{copy_opt_string, copy_string};
use vstd::prelude::*;

verus! {

/// Whose move it is in a live game, or how it ended (`winner` is `None` for
/// draws, stalemate and aborts).
#[derive(Debug, Clone)]
pub enum Turn {
    Playing,
    Waiting,
    Over { winner: Option<String> },
}

/// A human opponent.
#[derive(Debug, Clone)]
pub struct Player {
    pub id: String,
    pub name: String,
    pub title: Option<String>,
    pub rating: Option<i32>,
}

/// A computer opponent and its level, when known.
#[derive(Debug, Clone)]
pub struct Computer {
    pub ai_level: Option<u8>,
}

/// Who plays a side: a user or the Lichess AI.
#[derive(Debug, Clone)]
pub enum PlayedBy {
    User(Player),
    Ai(Computer),
}

/// The name shown for a side: the user's name, or `AI`.
pub open spec fn display_name_of(p: PlayedBy) -> Seq<char> {
    match p {
        PlayedBy::User(player) => player.name@,
        PlayedBy::Ai(_) => "AI"@,
    }
}

impl Turn {
    /// A copy of the turn.
    pub fn duplicate(&self) -> (r: Self)
        ensures
            r == *self,
    {
        match self {
            Turn::Playing => Turn::Playing,
            Turn::Waiting => Turn::Waiting,
            Turn::Over { winner } => Turn::Over { winner: copy_opt_string(winner) },
        }
    }
}

impl PlayedBy {
    /// A copy of the side's player.
    pub fn duplicate(&self) -> (r: Self)
        ensures
            r == *self,
    {
        match self {
            PlayedBy::User(p) => PlayedBy::User(
                Player {
                    id: copy_string(&p.id),
                    name: copy_string(&p.name),
                    title: copy_opt_string(&p.title),
                    rating: p.rating,
                },
            ),
            PlayedBy::Ai(c) => PlayedBy::Ai(Computer { ai_level: c.ai_level }),
        }
    }

    pub fn display_name(&self) -> (r: String)
        ensures
            r@ == display_name_of(*self),
    {
        match self {
            PlayedBy::User(player) => player.name.clone(),
            PlayedBy::Ai(_) => crate::text::string_of("AI"),
        }
    }
}

/// One entry of `GET /api/account/playing`.
#[derive(Debug, Clone)]
pub struct GameData {
    pub game_id: String,
    pub fen: String,
    pub color: String,
    pub opponent: PlayedBy,
    pub is_my_turn: bool,
}

#[derive(Debug, Clone)]
pub struct GameDataList {
    pub now_playing: Vec<GameData>,
}

/// No game scoped yet.
#[derive(Debug, Clone, Copy)]
pub struct Idle;

/// A game scoped: its id, both sides once known, the local player's colour,
/// the turn, and the position it started from and has reached.
#[derive(Debug, Clone)]
pub struct InGame {
    pub game_id: String,
    pub white: Option<PlayedBy>,
    pub black: Option<PlayedBy>,
    pub player0_white: bool,
    pub turn: Turn,
    pub initial_board: Bitboards,
    pub board: Bitboards,
}

#[derive(Debug, Clone)]
pub struct BoardAPI<S> {
    pub token: TokenInfo,
    pub user: LichessUser,
    pub state: S,
}

fn copy_opt_side(p: &Option<PlayedBy>) -> (r: Option<PlayedBy>)
    ensures
        r == *p,
{
    match p {
        Some(x) => Some(x.duplicate()),
        None => None,
    }
}

impl GameData {
    /// A copy of the entry.
    pub fn duplicate(&self) -> (r: Self)
        ensures
            r == *self,
    {
        GameData {
            game_id: copy_string(&self.game_id),
            fen: copy_string(&self.fen),
            color: copy_string(&self.color),
            opponent: self.opponent.duplicate(),
            is_my_turn: self.is_my_turn,
        }
    }
}

impl BoardAPI<Idle> {
    /// A copy of the client.
    pub fn duplicate(&self) -> (r: Self)
        ensures
            r == *self,
    {
        BoardAPI { token: self.token.duplicate(), user: self.user.duplicate(), state: self.state }
    }

    pub fn new(token: TokenInfo, user: LichessUser) -> (r: Self)
        ensures
            r.token == token,
            r.user == user,
    {
        BoardAPI { token, user, state: Idle }
    }

    /// Scope the client to game `game_id`. `my_turn` seeds the turn until
    /// the game stream reports it; the board starts at the initial position.
    pub fn attach_game(self, game_id: String, my_turn: bool) -> (r: BoardAPI<InGame>)
        ensures
            r.token == self.token,
            r.user == self.user,
            r.state.game_id == game_id,
            r.state.white is None,
            r.state.black is None,
            r.state.turn == if my_turn {
                Turn::Playing
            } else {
                Turn::Waiting
            },
            r.state.initial_board.model() == r.state.board.model(),
            r.state.board.model() == (
                crate::fen::start_occupancy(),
                crate::bitboard::Color::White,
            ),
    {
        let board = Bitboards::starting_position();
        BoardAPI {
            token: self.token,
            user: self.user,
            state: InGame {
                game_id,
                white: None,
                black: None,
                player0_white: true,
                turn: if my_turn {
                    Turn::Playing
                } else {
                    Turn::Waiting
                },
                initial_board: board,
                board,
            },
        }
    }
}

impl BoardAPI<InGame> {
    /// A copy of the client and its game state.
    pub fn duplicate(&self) -> (r: Self)
        ensures
            r == *self,
    {
        BoardAPI {
            token: self.token.duplicate(),
            user: self.user.duplicate(),
            state: InGame {
                game_id: copy_string(&self.state.game_id),
                white: copy_opt_side(&self.state.white),
                black: copy_opt_side(&self.state.black),
                player0_white: self.state.player0_white,
                turn: self.state.turn.duplicate(),
                initial_board: self.state.initial_board,
                board: self.state.board,
            },
        }
    }
}

/// The offline board: which side player 0 took and whose turn it is.
#[derive(Debug, Clone)]
pub struct BoardLocal {
    pub player0_white: bool,
    pub player0_turn: bool,
}

impl BoardLocal {
    /// A local game: player 0 has White and is to move. (Local play is not
    /// implemented; `game_id` is not kept.)
    pub fn new(game_id: String) -> (r: Self)
        ensures
            r.player0_white,
            r.player0_turn,
    {
        BoardLocal { player0_white: true, player0_turn: true }
    }
}

} // verus!
