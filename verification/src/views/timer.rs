//! The timer line.
use vstd::prelude::*;
use crate::app::{AdventuriaApp, AppView};

verus! {

/// The state of the timer as the window shows it.
#[derive(Clone, Copy, PartialEq, Eq, Debug, Structural)]
pub enum TimerStatus {
    Active,
    Paused,
}

/// The word shown for a timer state.
pub open spec fn timer_status_label(t: TimerStatus) -> Seq<char> {
    match t {
        TimerStatus::Active => "Active"@,
        TimerStatus::Paused => "Paused"@,
    }
}

impl TimerStatus {
    /// The word shown for this timer state.
    pub fn label(self) -> (s: &'static str)
        ensures
            s@ == timer_status_label(self),
    {
        match self {
            TimerStatus::Active => "Active",
            TimerStatus::Paused => "Paused",
        }
    }
}

/// The timer line: shown only to a logged-in user, with the timer's state.
pub open spec fn spec_timer_view<W>(s: AppView<W>) -> Option<TimerStatus> {
    if s.config.token is Some {
        Some(if s.timer_active { TimerStatus::Active } else { TimerStatus::Paused })
    } else {
        None
    }
}

/// Shows the timer's state to a logged-in user.
pub struct TimerView {}

impl TimerView {
    /// The timer line, or `None` when nobody is logged in.
    pub fn view<W>(state: &AdventuriaApp<W>) -> (r: Option<TimerStatus>)
        ensures
            r == spec_timer_view(state@),
            state.config.token is None ==> r is None,
            state.config.token is Some && state.timer.is_active ==> r == Some(TimerStatus::Active),
            state.config.token is Some && !state.timer.is_active ==> r == Some(TimerStatus::Paused),
    {
        if state.config.token.is_some() {
            if state.timer.is_active {
                Some(TimerStatus::Active)
            } else {
                Some(TimerStatus::Paused)
            }
        } else {
            None
        }
    }
}

} // verus!
