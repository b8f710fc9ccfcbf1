//! Core of a single-account chain watcher.
//!
//! The library holds the decision logic of two polling engines: a gas-aware
//! balance sweep (move everything above the fee cost to a fixed recipient)
//! and a blacklist-flag monitor that notifies exactly once when a watched
//! address leaves the blacklist. All network transport lives outside the
//! library; every function here works on plain values and carries a proved
//! contract.

pub mod address;
pub mod config;
pub mod errors;
pub mod monitor;
pub mod sweep;
pub mod telegram;
