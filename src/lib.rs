//! A greeter contract as a verified state machine: a stored message, a counter
//! and a lock flag, changed by paid calls. The host that runs the contract keeps
//! the account balance, performs payouts and publishes notices; the decisions
//! about the contract's own state are made and proved here.
pub mod greeter;

pub use greeter::{
    lemma_count_never_decreases, lemma_locked_ignores_messages, lemma_unlock_reopens,
    settle_withdrawal, Action, Error, Greeter, GreeterView, Notice,
};
