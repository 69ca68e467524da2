//! Changes to the start and stop hotkeys.
use vstd::prelude::*;
use crate::app::{
    AdventuriaApp, AppView, Command, CommandView, HotkeysConfigMessage, Message, MessageView,
    commands_view,
};
use crate::config::ConfigView;
use crate::controllers::main::no_command;
use crate::hotkeys::{hotkey_id, spec_hotkey_id};

use crate::controllers::Controller;

verus! {

/// Reacts to changes in the hotkey settings.
pub struct HotkeysController {}

/// The settings after a change in the hotkey panel.
pub open spec fn changed_config(c: ConfigView, m: HotkeysConfigMessage) -> ConfigView {
    match m {
        HotkeysConfigMessage::StartModifierChanged(x) => ConfigView { start_modifier: x, ..c },
        HotkeysConfigMessage::StartKeyChanged(k) => ConfigView { start_key: k, ..c },
        HotkeysConfigMessage::StopModifierChanged(x) => ConfigView { stop_modifier: x, ..c },
        HotkeysConfigMessage::StopKeyChanged(k) => ConfigView { stop_key: k, ..c },
    }
}

/// What [`HotkeysController::update_hotkeys`] does: the ids follow the
/// configured hotkeys, which are registered anew and saved.
pub open spec fn rebind_step<W>(s: AppView<W>) -> (AppView<W>, Seq<CommandView<W>>) {
    let c = s.config;
    (
        AppView {
            hotkey_start_id: spec_hotkey_id(c.start_modifier, c.start_key),
            hotkey_stop_id: spec_hotkey_id(c.stop_modifier, c.stop_key),
            ..s
        },
        seq![
            CommandView::RegisterHotkeys {
                start_modifier: c.start_modifier,
                start_key: c.start_key,
                stop_modifier: c.stop_modifier,
                stop_key: c.stop_key,
            },
            CommandView::SaveConfig(c)
        ],
    )
}

/// What [`HotkeysController::update`] does: the new state and the commands.
pub open spec fn hotkeys_step<W>(s: AppView<W>, m: MessageView<W>) -> (AppView<W>, Seq<CommandView<W>>) {
    match m {
        MessageView::HotkeysConfig(cm) => rebind_step(AppView { config: changed_config(s.config, cm), ..s }),
        _ => (s, seq![]),
    }
}

impl Controller for HotkeysController {
    /// Applies a change of the hotkey settings: the new hotkeys replace the
    /// registered ones and the settings are saved.
    fn update<W: Copy>(state: &mut AdventuriaApp<W>, message: &Message<W>) -> (cmds: Vec<Command<W>>)
        ensures
            final(state)@ == hotkeys_step(old(state)@, message@).0,
            commands_view(cmds@) == hotkeys_step(old(state)@, message@).1,
    {
        match message {
            Message::HotkeysConfig(config_message) => {
                match *config_message {
                    HotkeysConfigMessage::StartModifierChanged(modifier) => {
                        state.config.start_modifier = modifier;
                    },
                    HotkeysConfigMessage::StartKeyChanged(key) => {
                        state.config.start_key = key;
                    },
                    HotkeysConfigMessage::StopModifierChanged(modifier) => {
                        state.config.stop_modifier = modifier;
                    },
                    HotkeysConfigMessage::StopKeyChanged(key) => {
                        state.config.stop_key = key;
                    },
                }
                Self::update_hotkeys(state)
            },
            _ => no_command(),
        }
    }
}

impl HotkeysController {

    /// Recomputes the hotkey ids from the settings and asks for the hotkeys
    /// to be registered anew and the settings to be saved.
    pub fn update_hotkeys<W: Copy>(state: &mut AdventuriaApp<W>) -> (cmds: Vec<Command<W>>)
        ensures
            final(state)@ == rebind_step(old(state)@).0,
            commands_view(cmds@) == rebind_step(old(state)@).1,
    {
        state.hotkey_start_id = hotkey_id(state.config.start_modifier, state.config.start_key);
        state.hotkey_stop_id = hotkey_id(state.config.stop_modifier, state.config.stop_key);
        let mut v: Vec<Command<W>> = Vec::new();
        v.push(Command::RegisterHotkeys {
            start_modifier: state.config.start_modifier,
            start_key: state.config.start_key,
            stop_modifier: state.config.stop_modifier,
            stop_key: state.config.stop_key,
        });
        v.push(Command::SaveConfig(state.config.duplicate()));
        assert(commands_view(v@) =~= rebind_step(old(state)@).1);
        v
    }
}

} // verus!
