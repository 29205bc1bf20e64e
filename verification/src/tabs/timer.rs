//! The timer view: it shows a gauge at the latest progress percentage the
//! runtime loop has received from the active countdown. The loop overwrites
//! the value on every report, so the gauge always shows the most recent one.

use vstd::prelude::*;

verus! {

/// View state of the timer tab: the latest progress report received.
#[derive(Clone, Copy, Debug, PartialEq, Eq, Structural)]
pub struct TimerTab {
    /// The most recently received progress percentage, 0 before any report.
    pub progress: u16,
}

impl TimerTab {
    /// The state the timer view starts in: no progress reported yet.
    pub open spec fn default_spec() -> TimerTab {
        TimerTab { progress: 0 }
    }
}

impl Default for TimerTab {
    fn default() -> (t: Self)
        ensures
            t == TimerTab::default_spec(),
    {
        TimerTab { progress: 0 }
    }
}

} // verus!
