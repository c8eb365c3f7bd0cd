//! Rules engine for a turn-based bluffing card game played over short text
//! commands: a deck of role tokens, seated players with coin balances, and a
//! propose / timed-objection / commit-or-abort protocol over a single shared
//! game state. Transport and command parsing live outside this crate; the
//! engine only takes structured intents and returns structured outcomes.

pub mod config;
pub mod deck;
pub mod errors;
pub mod game;
pub mod laws;
pub mod player;
pub mod round;
