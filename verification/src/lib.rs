//! Drives chess engines that speak UCI and referees matches between them.
//!
//! The crate holds the rules of the session and of the match as plain
//! functions from a state and an event to the next state and an action; the
//! caller owns the engine processes and the clock.
//!
//! - [`engine`]: the session with one engine: handshake, options, analysis,
//!   and the two ways of writing castling.
//! - [`engine_match`]: a match between two engines, with its clocks.
//! - [`game`]: a game and its status, threefold repetition included.
//! - [`time_control`]: time controls and their textual form.
//! - [`board`], [`chess`], [`uci`], [`duration`], [`search`]: the positions,
//!   values, messages, spans of time and sequence searches that the others
//!   speak of.

pub mod board;
pub mod chess;
pub mod duration;
pub mod engine;
pub mod engine_match;
pub mod game;
pub mod search;
pub mod time_control;
pub mod uci;
