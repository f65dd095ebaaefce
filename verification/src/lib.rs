//! A fruit-trading game: timed offers, a key-repeat filter and a player ledger.

pub mod chance;
pub mod clock;
pub mod config;
pub mod console;
pub mod fruit;
pub mod game;
pub mod player;
