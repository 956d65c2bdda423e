//! The core of a card-drawing chat bot: the card catalog, the per-subscriber
//! state, the dealer that never repeats a card before a reshuffle, and the
//! resolver that turns a command into the next state and a response.

pub mod config;
pub mod database_interactions;
pub mod dealer;
pub mod process;
pub mod resolver;
pub mod seed;
pub mod telegram_interactions;
pub mod translations;
