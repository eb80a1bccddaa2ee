//! Latched toggle flag behind the global hotkey.
//!
//! The hotkey event itself is detected by the presentation layer; this
//! flag only latches a trigger until the next poll, which consumes it.

use vstd::prelude::*;

verus! {

/// A one-shot latch: `trigger` sets it, `check_triggered` reads and
/// clears it in one step.
pub struct HotkeyManager {
    triggered: bool,
}

impl HotkeyManager {
    /// Whether a trigger is latched and not yet consumed.
    pub closed spec fn is_triggered(self) -> bool {
        self.triggered
    }

    /// A fresh manager with no pending trigger.
    pub fn new() -> (r: Option<HotkeyManager>)
        ensures
            r matches Some(m) && !m.is_triggered(),
    {
        Some(HotkeyManager { triggered: false })
    }

    /// Consume the latch: reports whether a trigger was pending and clears
    /// it, so a second poll without a new trigger reports false.
    pub fn check_triggered(&mut self) -> (r: bool)
        ensures
            r == old(self).is_triggered(),
            !final(self).is_triggered(),
    {
        let was = self.triggered;
        self.triggered = false;
        was
    }

    /// Latch a trigger for the next poll.
    pub fn trigger(&mut self)
        ensures
            final(self).is_triggered(),
    {
        self.triggered = true;
    }
}

} // verus!
