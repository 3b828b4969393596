//! The logic of a Lichess client for e-ink Kindles, with its contracts: the
//! chess position model (bitboards, FEN, UCI moves), the puzzle rulebook and
//! puzzle selection, the live-game stream, the widgets' touch handling and
//! repaint plans, the screens and their navigation, and the updater's
//! release check. Drawing, networking and the event loop belong to the
//! application that drives these.

pub mod bitboard;
pub mod board_api;
pub mod board_geometry;
pub mod chess;
pub mod events;
pub mod fen;
pub mod game_screens;
pub mod game_stream;
pub mod github;
pub mod menus;
pub mod oauth;
pub mod puzzle;
pub mod puzzle_fetch;
pub mod puzzle_screen;
pub mod screens;
pub mod sidebar;
pub mod text;
pub mod uci;
pub mod widgets;
