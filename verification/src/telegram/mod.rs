//! Decisions that the Telegram service makes around its API calls.
pub mod peer;
pub mod rights;
pub mod requests;
pub mod results;
pub mod collect;
pub mod media;
pub mod search;
