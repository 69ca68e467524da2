//! The persisted settings: the session token, the user id and the two hotkeys.
use vstd::prelude::*;
use crate::hotkeys::{HotkeyModifier, KeyCode};

verus! {

/// The settings that outlive a run of the application.
pub struct Config {
    pub token: Option<String>,
    pub user_id: Option<String>,
    pub start_modifier: HotkeyModifier,
    pub start_key: KeyCode,
    pub stop_modifier: HotkeyModifier,
    pub stop_key: KeyCode,
}

/// The mathematical value of a [`Config`]: its strings as character sequences.
pub struct ConfigView {
    pub token: Option<Seq<char>>,
    pub user_id: Option<Seq<char>>,
    pub start_modifier: HotkeyModifier,
    pub start_key: KeyCode,
    pub stop_modifier: HotkeyModifier,
    pub stop_key: KeyCode,
}

/// The character sequence of an optional string.
pub open spec fn opt_view(s: Option<String>) -> Option<Seq<char>> {
    match s {
        Some(t) => Some(t@),
        None => None,
    }
}

impl View for Config {
    type V = ConfigView;

    open spec fn view(&self) -> ConfigView {
        ConfigView {
            token: opt_view(self.token),
            user_id: opt_view(self.user_id),
            start_modifier: self.start_modifier,
            start_key: self.start_key,
            stop_modifier: self.stop_modifier,
            stop_key: self.stop_key,
        }
    }
}

/// The settings of a first run: nobody logged in, Alt+F8 starts the timer
/// and Alt+F9 stops it.
pub open spec fn spec_default_config() -> ConfigView {
    ConfigView {
        token: None,
        user_id: None,
        start_modifier: HotkeyModifier::Alt,
        start_key: KeyCode::F8,
        stop_modifier: HotkeyModifier::Alt,
        stop_key: KeyCode::F9,
    }
}

/// The modifier of the start hotkey when the settings name none.
pub fn default_start_modifier() -> (m: HotkeyModifier)
    ensures
        m == HotkeyModifier::Alt,
{
    HotkeyModifier::Alt
}

/// The key of the start hotkey when the settings name none.
pub fn default_start_key() -> (k: KeyCode)
    ensures
        k == KeyCode::F8,
{
    KeyCode::F8
}

/// The modifier of the stop hotkey when the settings name none.
pub fn default_stop_modifier() -> (m: HotkeyModifier)
    ensures
        m == HotkeyModifier::Alt,
{
    HotkeyModifier::Alt
}

/// The key of the stop hotkey when the settings name none.
pub fn default_stop_key() -> (k: KeyCode)
    ensures
        k == KeyCode::F9,
{
    KeyCode::F9
}

impl Default for Config {
    fn default() -> (c: Config)
        ensures
            c@ == spec_default_config(),
    {
        Config {
            token: None,
            user_id: None,
            start_modifier: default_start_modifier(),
            start_key: default_start_key(),
            stop_modifier: default_stop_modifier(),
            stop_key: default_stop_key(),
        }
    }
}

/// A copy of an optional string.
fn clone_opt_string(s: &Option<String>) -> (r: Option<String>)
    ensures
        opt_view(r) == opt_view(*s),
{
    match s {
        Some(t) => Some(t.clone()),
        None => None,
    }
}

impl Config {
    /// A copy of the settings.
    pub fn duplicate(&self) -> (c: Config)
        ensures
            c@ == self@,
    {
        Config {
            token: clone_opt_string(&self.token),
            user_id: clone_opt_string(&self.user_id),
            start_modifier: self.start_modifier,
            start_key: self.start_key,
            stop_modifier: self.stop_modifier,
            stop_key: self.stop_key,
        }
    }
}

} // verus!
