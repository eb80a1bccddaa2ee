//! Core of a desktop process monitor: sampling of per-process CPU and
//! memory figures with a bounded rolling history, and a graceful-then-
//! forceful process-termination protocol with classified outcomes.
//!
//! Fractional quantities are carried as integers: CPU utilisation in
//! whole percent, memory in bytes, elapsed time in milliseconds.
//! Presentation layers convert for display.

pub mod history;
pub mod hotkey;
pub mod killer;
pub mod metrics;
pub mod search;
pub mod settings;
