//! A small message ledger: flyts addressed from one identity to another,
//! replies that reverse the direction of the message they answer, and
//! per-message engagement counters.

pub mod flyt;
pub mod ledger;
pub mod theorems;

pub use flyt::{Address, Error, Flyt, FlytStats};
pub use ledger::{add_like, draft_reply, flyt_key, stats_key, Contract};
