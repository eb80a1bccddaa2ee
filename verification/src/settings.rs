//! User-facing settings of the monitor.
//!
//! Persistence (a JSON file under the user's configuration directory) is a
//! collaborator outside this library; here live the settings themselves,
//! their defaults, and the refresh-cadence decision of the driving loop.

use vstd::prelude::*;

verus! {

/// Which column orders the process table.
#[derive(Clone, Copy, Debug, PartialEq, Eq, Structural)]
pub enum SortMode {
    Memory,
    Cpu,
}

/// Settings kept across runs by the presentation layer.
#[derive(Clone, Copy, Debug, PartialEq, Eq, Structural)]
pub struct Settings {
    pub sort_mode: SortMode,
    pub chart_window_seconds: u32,
    pub refresh_interval_ms: u64,
    pub hotkey_enabled: bool,
}

impl Default for Settings {
    /// The settings a fresh installation starts from.
    fn default() -> (r: Self)
        ensures
            r.sort_mode == SortMode::Memory,
            r.chart_window_seconds == 120,
            r.refresh_interval_ms == 1000,
            r.hotkey_enabled,
    {
        Settings {
            sort_mode: SortMode::Memory,
            chart_window_seconds: 120,
            refresh_interval_ms: 1000,
            hotkey_enabled: true,
        }
    }
}

/// Whether enough time has passed since the last refresh for the driving
/// loop to sample again.
pub fn should_refresh(since_last_ms: u64, interval_ms: u64) -> (r: bool)
    ensures
        r == (since_last_ms >= interval_ms),
{
    since_last_ms >= interval_ms
}

} // verus!
