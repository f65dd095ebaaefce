//! What the player does at the keyboard, and what the terminal is given to show.

pub mod input;
pub mod key_handling;
pub mod output;
