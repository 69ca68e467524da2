use std::str::FromStr;

use adventuria_timer::config::{
    default_start_key, default_start_modifier, default_stop_key, default_stop_modifier, Config,
};
use adventuria_timer::hotkeys::{all_keys, hotkey_id, HotkeyModifier, KeyCode, KEY_CODE_COUNT};
use global_hotkey::hotkey::{Code, HotKey, Modifiers};

fn outside_modifiers(m: HotkeyModifier) -> Option<Modifiers> {
    m.to_global_modifiers().map(Modifiers::from_bits_retain)
}

#[test]
fn modifier_bits_are_the_hotkey_library_flags() {
    assert_eq!(HotkeyModifier::Alt.to_global_modifiers(), Some(Modifiers::ALT.bits()));
    assert_eq!(HotkeyModifier::Ctrl.to_global_modifiers(), Some(Modifiers::CONTROL.bits()));
    assert_eq!(HotkeyModifier::Shift.to_global_modifiers(), Some(Modifiers::SHIFT.bits()));
    assert_eq!(HotkeyModifier::NoModifier.to_global_modifiers(), None);
}

fn every_key() -> Vec<KeyCode> {
    (0..KEY_CODE_COUNT).map(|n| KeyCode::from_number(n).unwrap()).collect()
}

#[test]
fn key_numbers_cover_the_code_list() {
    assert_eq!(KEY_CODE_COUNT, 216);
    for n in 0..KEY_CODE_COUNT {
        assert_eq!(KeyCode::from_number(n).unwrap().number(), n);
    }
    assert_eq!(KeyCode::from_number(KEY_CODE_COUNT), None);
    assert_eq!(KeyCode::from_number(u32::MAX), None);
    assert_eq!(KeyCode::from_number(0), Some(KeyCode::Backquote));
    assert_eq!(KeyCode::from_number(167), Some(KeyCode::F8));
}

#[test]
fn keys_found_by_name() {
    assert_eq!(KeyCode::from_name("Space"), Some(KeyCode::Space));
    assert_eq!(KeyCode::from_name("F9"), Some(KeyCode::F9));
    assert_eq!(KeyCode::from_name("KeyA"), Some(KeyCode::KeyA));
    assert_eq!(KeyCode::from_name("ZoomToggle"), Some(KeyCode::ZoomToggle));
    assert_eq!(KeyCode::from_name("space"), None);
    assert_eq!(KeyCode::from_name(""), None);
    assert_eq!(KeyCode::from_name("Nope"), None);
    for k in every_key() {
        assert_eq!(KeyCode::from_name(k.name()), Some(k));
    }
}

#[test]
fn key_names_are_the_hotkey_library_names() {
    for k in every_key() {
        let code = Code::from_str(k.name()).unwrap();
        assert_eq!(code.to_string(), k.name());
        assert_eq!(code as u32, k.number());
    }
}

#[test]
fn hotkey_ids_agree_with_the_hotkey_library() {
    for m in HotkeyModifier::all() {
        for k in every_key() {
            let code = Code::from_str(k.name()).unwrap();
            let expected = HotKey::new(outside_modifiers(m), code).id();
            assert_eq!(hotkey_id(m, k), expected);
        }
    }
}

#[test]
fn hotkey_id_exact_values() {
    assert_eq!(hotkey_id(HotkeyModifier::Alt, KeyCode::F8), (1 << 16) | 167);
    assert_eq!(hotkey_id(HotkeyModifier::Alt, KeyCode::F9), 65536 + 168);
    assert_eq!(hotkey_id(HotkeyModifier::Ctrl, KeyCode::KeyA), 8 * 65536 + 19);
    assert_eq!(hotkey_id(HotkeyModifier::Shift, KeyCode::F12), 0x200 * 65536 + 171);
    assert_eq!(hotkey_id(HotkeyModifier::NoModifier, KeyCode::KeyZ), 44);
}

#[test]
fn hotkey_ids_are_distinct() {
    let mut ids = Vec::new();
    for m in HotkeyModifier::all() {
        for k in every_key() {
            ids.push(hotkey_id(m, k));
        }
    }
    let n = ids.len();
    assert_eq!(n, 4 * 216);
    ids.sort();
    ids.dedup();
    assert_eq!(ids.len(), n);
}

#[test]
fn picker_lists() {
    assert_eq!(
        HotkeyModifier::all(),
        vec![HotkeyModifier::Alt, HotkeyModifier::Ctrl, HotkeyModifier::Shift, HotkeyModifier::NoModifier]
    );
    let keys = all_keys();
    assert_eq!(keys.len(), 38);
    assert_eq!(keys[0], KeyCode::KeyA);
    assert_eq!(keys[25], KeyCode::KeyZ);
    assert_eq!(keys[26], KeyCode::F1);
    assert_eq!(keys[37], KeyCode::F12);
}

#[test]
fn modifier_names() {
    assert_eq!(HotkeyModifier::Alt.name(), "Alt");
    assert_eq!(HotkeyModifier::Ctrl.name(), "Ctrl");
    assert_eq!(HotkeyModifier::Shift.name(), "Shift");
    assert_eq!(HotkeyModifier::NoModifier.name(), "None");
    assert_eq!(HotkeyModifier::default(), HotkeyModifier::Alt);
}

#[test]
fn default_settings() {
    assert_eq!(default_start_modifier(), HotkeyModifier::Alt);
    assert_eq!(default_start_key(), KeyCode::F8);
    assert_eq!(default_stop_modifier(), HotkeyModifier::Alt);
    assert_eq!(default_stop_key(), KeyCode::F9);
    let c = Config::default();
    assert!(c.token.is_none());
    assert!(c.user_id.is_none());
    assert_eq!(c.start_modifier, HotkeyModifier::Alt);
    assert_eq!(c.start_key, KeyCode::F8);
    assert_eq!(c.stop_modifier, HotkeyModifier::Alt);
    assert_eq!(c.stop_key, KeyCode::F9);
}

#[test]
fn config_duplicate_keeps_everything() {
    let mut c = Config::default();
    c.token = Some("tok".to_string());
    c.user_id = Some("u1".to_string());
    c.stop_key = KeyCode::KeyQ;
    let d = c.duplicate();
    assert_eq!(d.token.as_deref(), Some("tok"));
    assert_eq!(d.user_id.as_deref(), Some("u1"));
    assert_eq!(d.stop_key, KeyCode::KeyQ);
    assert_eq!(d.start_key, KeyCode::F8);
}
