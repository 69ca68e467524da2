//! The hotkey settings panel.
use vstd::prelude::*;
use crate::app::{AdventuriaApp, AppView};
use crate::hotkeys::{HotkeyModifier, KeyCode};

verus! {

/// The hotkey panel: a notice for a user who is not logged in, or the
/// pickers with the configured hotkeys selected.
#[derive(Clone, Copy, PartialEq, Eq, Debug, Structural)]
pub enum HotkeysPanel {
    NotAuthenticated,
    Pickers {
        start_modifier: HotkeyModifier,
        start_key: KeyCode,
        stop_modifier: HotkeyModifier,
        stop_key: KeyCode,
    },
}

/// The hotkey panel for a state.
pub open spec fn spec_hotkeys_view<W>(s: AppView<W>) -> HotkeysPanel {
    if s.config.token is Some {
        HotkeysPanel::Pickers {
            start_modifier: s.config.start_modifier,
            start_key: s.config.start_key,
            stop_modifier: s.config.stop_modifier,
            stop_key: s.config.stop_key,
        }
    } else {
        HotkeysPanel::NotAuthenticated
    }
}

/// Shows the hotkey settings to a logged-in user.
pub struct HotkeysView {}

impl HotkeysView {
    /// The hotkey panel for `state`.
    pub fn view<W>(state: &AdventuriaApp<W>) -> (p: HotkeysPanel)
        ensures
            p == spec_hotkeys_view(state@),
            state.config.token is Some ==> p == (HotkeysPanel::Pickers {
                start_modifier: state.config.start_modifier,
                start_key: state.config.start_key,
                stop_modifier: state.config.stop_modifier,
                stop_key: state.config.stop_key,
            }),
            state.config.token is None ==> p == HotkeysPanel::NotAuthenticated,
    {
        if state.config.token.is_some() {
            HotkeysPanel::Pickers {
                start_modifier: state.config.start_modifier,
                start_key: state.config.start_key,
                stop_modifier: state.config.stop_modifier,
                stop_key: state.config.stop_key,
            }
        } else {
            HotkeysPanel::NotAuthenticated
        }
    }
}

} // verus!
