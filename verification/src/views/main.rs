//! The whole window.
use vstd::prelude::*;
use vstd::string::StringExecFns;
use crate::app::AdventuriaApp;
use crate::views::hotkeys::{HotkeysPanel, HotkeysView, spec_hotkeys_view};
use crate::views::timer::{TimerStatus, TimerView, spec_timer_view};

verus! {

/// What the window shows besides the input fields, which show the state's
/// domain, identity and password as they are.
pub struct MainScreen {
    pub title: &'static str,
    pub status_line: String,
    pub timer: Option<TimerStatus>,
    pub hotkeys: HotkeysPanel,
}

/// The line that shows the status message.
pub open spec fn spec_status_line(message: Seq<char>) -> Seq<char> {
    "Status: "@ + message
}

/// The window's title line.
pub open spec fn app_title() -> Seq<char> {
    "Adventuria Timer"@
}

/// Shows the login fields, the status, the timer and the hotkey panel.
pub struct MainView {}

impl MainView {
    /// What the window shows for `state`.
    pub fn view<W>(state: &AdventuriaApp<W>) -> (screen: MainScreen)
        ensures
            screen.title@ == app_title(),
            screen.status_line@ == spec_status_line(state@.status_message),
            screen.timer == spec_timer_view(state@),
            screen.hotkeys == spec_hotkeys_view(state@),
    {
        MainScreen {
            title: "Adventuria Timer",
            status_line: String::from_str("Status: ").concat(state.status_message.as_str()),
            timer: TimerView::view(state),
            hotkeys: HotkeysView::view(state),
        }
    }
}

} // verus!
