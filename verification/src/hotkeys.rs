//! Hotkey modifiers, the keys a hotkey can be bound to, and the numeric id
//! under which the operating system reports a pressed hotkey.
use vstd::prelude::*;
use vstd::string::StringExecFns;

verus! {

/// The modifier held together with the key of a hotkey.
#[derive(Clone, Copy, PartialEq, Eq, Debug, Structural)]
pub enum HotkeyModifier {
    Alt,
    Ctrl,
    Shift,
    NoModifier,
}

/// The modifier flag bits of the hotkey library for a modifier, or `None`
/// when the hotkey has no modifier.
pub open spec fn modifier_flags(m: HotkeyModifier) -> Option<u32> {
    match m {
        HotkeyModifier::Alt => Some(0x01u32),
        HotkeyModifier::Ctrl => Some(0x08u32),
        HotkeyModifier::Shift => Some(0x200u32),
        HotkeyModifier::NoModifier => Option::<u32>::None,
    }
}

/// The modifier bits that end up in a hotkey: no modifier counts as the empty set.
pub open spec fn modifier_bits(m: HotkeyModifier) -> u32 {
    match modifier_flags(m) {
        Some(b) => b,
        Option::None => 0u32,
    }
}

/// The name under which a modifier is shown to the user.
pub open spec fn modifier_name(m: HotkeyModifier) -> Seq<char> {
    match m {
        HotkeyModifier::Alt => "Alt"@,
        HotkeyModifier::Ctrl => "Ctrl"@,
        HotkeyModifier::Shift => "Shift"@,
        HotkeyModifier::NoModifier => "None"@,
    }
}

/// Every modifier, in the order the modifier picker lists them.
pub open spec fn spec_all_modifiers() -> Seq<HotkeyModifier> {
    seq![HotkeyModifier::Alt, HotkeyModifier::Ctrl, HotkeyModifier::Shift, HotkeyModifier::NoModifier]
}

impl Default for HotkeyModifier {
    fn default() -> (m: HotkeyModifier)
        ensures
            m == HotkeyModifier::Alt,
    {
        HotkeyModifier::Alt
    }
}

impl HotkeyModifier {
    /// Every modifier, in the order the modifier picker lists them.
    pub fn all() -> (v: Vec<HotkeyModifier>)
        ensures
            v@ == spec_all_modifiers(),
    {
        let v = vec![HotkeyModifier::Alt, HotkeyModifier::Ctrl, HotkeyModifier::Shift, HotkeyModifier::NoModifier];
        assert(v@ =~= spec_all_modifiers());
        v
    }

    /// The modifier flag bits that register this modifier with the hotkey
    /// library, `None` for a hotkey without modifier.
    pub fn to_global_modifiers(self) -> (r: Option<u32>)
        ensures
            r == modifier_flags(self),
    {
        match self {
            HotkeyModifier::Alt => Some(0x01u32),
            HotkeyModifier::Ctrl => Some(0x08u32),
            HotkeyModifier::Shift => Some(0x200u32),
            HotkeyModifier::NoModifier => Option::None,
        }
    }

    /// The name under which the modifier is shown.
    pub fn name(self) -> (s: &'static str)
        ensures
            s@ == modifier_name(self),
    {
        match self {
            HotkeyModifier::Alt => "Alt",
            HotkeyModifier::Ctrl => "Ctrl",
            HotkeyModifier::Shift => "Shift",
            HotkeyModifier::NoModifier => "None",
        }
    }
}

/// The physical keys, in the order of the hotkey library's key code list.
/// The key picker offers the letters and the function keys; the settings
/// file may name any of them.
#[derive(Clone, Copy, PartialEq, Eq, Debug, Structural)]
pub enum KeyCode {
    Backquote, Backslash, BracketLeft, BracketRight, Comma, Digit0,
    Digit1, Digit2, Digit3, Digit4, Digit5, Digit6,
    Digit7, Digit8, Digit9, Equal, IntlBackslash, IntlRo,
    IntlYen, KeyA, KeyB, KeyC, KeyD, KeyE,
    KeyF, KeyG, KeyH, KeyI, KeyJ, KeyK,
    KeyL, KeyM, KeyN, KeyO, KeyP, KeyQ,
    KeyR, KeyS, KeyT, KeyU, KeyV, KeyW,
    KeyX, KeyY, KeyZ, Minus, Period, Quote,
    Semicolon, Slash, AltLeft, AltRight, Backspace, CapsLock,
    ContextMenu, ControlLeft, ControlRight, Enter, MetaLeft, MetaRight,
    ShiftLeft, ShiftRight, Space, Tab, Convert, KanaMode,
    Lang1, Lang2, Lang3, Lang4, Lang5, NonConvert,
    Delete, End, Help, Home, Insert, PageDown,
    PageUp, ArrowDown, ArrowLeft, ArrowRight, ArrowUp, NumLock,
    Numpad0, Numpad1, Numpad2, Numpad3, Numpad4, Numpad5,
    Numpad6, Numpad7, Numpad8, Numpad9, NumpadAdd, NumpadBackspace,
    NumpadClear, NumpadClearEntry, NumpadComma, NumpadDecimal, NumpadDivide, NumpadEnter,
    NumpadEqual, NumpadHash, NumpadMemoryAdd, NumpadMemoryClear, NumpadMemoryRecall, NumpadMemoryStore,
    NumpadMemorySubtract, NumpadMultiply, NumpadParenLeft, NumpadParenRight, NumpadStar, NumpadSubtract,
    Escape, Fn, FnLock, PrintScreen, ScrollLock, Pause,
    BrowserBack, BrowserFavorites, BrowserForward, BrowserHome, BrowserRefresh, BrowserSearch,
    BrowserStop, Eject, LaunchApp1, LaunchApp2, LaunchMail, MediaPlayPause,
    MediaSelect, MediaStop, MediaTrackNext, MediaTrackPrevious, Power, Sleep,
    AudioVolumeDown, AudioVolumeMute, AudioVolumeUp, WakeUp, Hyper, Super,
    Turbo, Abort, Resume, Suspend, Again, Copy,
    Cut, Find, Open, Paste, Props, Select,
    Undo, Hiragana, Katakana, Unidentified, F1, F2,
    F3, F4, F5, F6, F7, F8,
    F9, F10, F11, F12, F13, F14,
    F15, F16, F17, F18, F19, F20,
    F21, F22, F23, F24, F25, F26,
    F27, F28, F29, F30, F31, F32,
    F33, F34, F35, BrightnessDown, BrightnessUp, DisplayToggleIntExt,
    KeyboardLayoutSelect, LaunchAssistant, LaunchControlPanel, LaunchScreenSaver, MailForward, MailReply,
    MailSend, MediaFastForward, MediaPause, MediaPlay, MediaRecord, MediaRewind,
    MicrophoneMuteToggle, PrivacyScreenToggle, KeyboardBacklightToggle, SelectTask, ShowAllWindows, ZoomToggle,
}

/// The number of keys in the hotkey library's key code list.
pub const KEY_CODE_COUNT: u32 = 216;

/// The number of a key in the hotkey library's key code list: its place in that list.
pub open spec fn key_number(k: KeyCode) -> u32 {
    match k {
        KeyCode::Backquote => 0u32, KeyCode::Backslash => 1u32, KeyCode::BracketLeft => 2u32, KeyCode::BracketRight => 3u32,
        KeyCode::Comma => 4u32, KeyCode::Digit0 => 5u32, KeyCode::Digit1 => 6u32, KeyCode::Digit2 => 7u32,
        KeyCode::Digit3 => 8u32, KeyCode::Digit4 => 9u32, KeyCode::Digit5 => 10u32, KeyCode::Digit6 => 11u32,
        KeyCode::Digit7 => 12u32, KeyCode::Digit8 => 13u32, KeyCode::Digit9 => 14u32, KeyCode::Equal => 15u32,
        KeyCode::IntlBackslash => 16u32, KeyCode::IntlRo => 17u32, KeyCode::IntlYen => 18u32, KeyCode::KeyA => 19u32,
        KeyCode::KeyB => 20u32, KeyCode::KeyC => 21u32, KeyCode::KeyD => 22u32, KeyCode::KeyE => 23u32,
        KeyCode::KeyF => 24u32, KeyCode::KeyG => 25u32, KeyCode::KeyH => 26u32, KeyCode::KeyI => 27u32,
        KeyCode::KeyJ => 28u32, KeyCode::KeyK => 29u32, KeyCode::KeyL => 30u32, KeyCode::KeyM => 31u32,
        KeyCode::KeyN => 32u32, KeyCode::KeyO => 33u32, KeyCode::KeyP => 34u32, KeyCode::KeyQ => 35u32,
        KeyCode::KeyR => 36u32, KeyCode::KeyS => 37u32, KeyCode::KeyT => 38u32, KeyCode::KeyU => 39u32,
        KeyCode::KeyV => 40u32, KeyCode::KeyW => 41u32, KeyCode::KeyX => 42u32, KeyCode::KeyY => 43u32,
        KeyCode::KeyZ => 44u32, KeyCode::Minus => 45u32, KeyCode::Period => 46u32, KeyCode::Quote => 47u32,
        KeyCode::Semicolon => 48u32, KeyCode::Slash => 49u32, KeyCode::AltLeft => 50u32, KeyCode::AltRight => 51u32,
        KeyCode::Backspace => 52u32, KeyCode::CapsLock => 53u32, KeyCode::ContextMenu => 54u32, KeyCode::ControlLeft => 55u32,
        KeyCode::ControlRight => 56u32, KeyCode::Enter => 57u32, KeyCode::MetaLeft => 58u32, KeyCode::MetaRight => 59u32,
        KeyCode::ShiftLeft => 60u32, KeyCode::ShiftRight => 61u32, KeyCode::Space => 62u32, KeyCode::Tab => 63u32,
        KeyCode::Convert => 64u32, KeyCode::KanaMode => 65u32, KeyCode::Lang1 => 66u32, KeyCode::Lang2 => 67u32,
        KeyCode::Lang3 => 68u32, KeyCode::Lang4 => 69u32, KeyCode::Lang5 => 70u32, KeyCode::NonConvert => 71u32,
        KeyCode::Delete => 72u32, KeyCode::End => 73u32, KeyCode::Help => 74u32, KeyCode::Home => 75u32,
        KeyCode::Insert => 76u32, KeyCode::PageDown => 77u32, KeyCode::PageUp => 78u32, KeyCode::ArrowDown => 79u32,
        KeyCode::ArrowLeft => 80u32, KeyCode::ArrowRight => 81u32, KeyCode::ArrowUp => 82u32, KeyCode::NumLock => 83u32,
        KeyCode::Numpad0 => 84u32, KeyCode::Numpad1 => 85u32, KeyCode::Numpad2 => 86u32, KeyCode::Numpad3 => 87u32,
        KeyCode::Numpad4 => 88u32, KeyCode::Numpad5 => 89u32, KeyCode::Numpad6 => 90u32, KeyCode::Numpad7 => 91u32,
        KeyCode::Numpad8 => 92u32, KeyCode::Numpad9 => 93u32, KeyCode::NumpadAdd => 94u32, KeyCode::NumpadBackspace => 95u32,
        KeyCode::NumpadClear => 96u32, KeyCode::NumpadClearEntry => 97u32, KeyCode::NumpadComma => 98u32, KeyCode::NumpadDecimal => 99u32,
        KeyCode::NumpadDivide => 100u32, KeyCode::NumpadEnter => 101u32, KeyCode::NumpadEqual => 102u32, KeyCode::NumpadHash => 103u32,
        KeyCode::NumpadMemoryAdd => 104u32, KeyCode::NumpadMemoryClear => 105u32, KeyCode::NumpadMemoryRecall => 106u32, KeyCode::NumpadMemoryStore => 107u32,
        KeyCode::NumpadMemorySubtract => 108u32, KeyCode::NumpadMultiply => 109u32, KeyCode::NumpadParenLeft => 110u32, KeyCode::NumpadParenRight => 111u32,
        KeyCode::NumpadStar => 112u32, KeyCode::NumpadSubtract => 113u32, KeyCode::Escape => 114u32, KeyCode::Fn => 115u32,
        KeyCode::FnLock => 116u32, KeyCode::PrintScreen => 117u32, KeyCode::ScrollLock => 118u32, KeyCode::Pause => 119u32,
        KeyCode::BrowserBack => 120u32, KeyCode::BrowserFavorites => 121u32, KeyCode::BrowserForward => 122u32, KeyCode::BrowserHome => 123u32,
        KeyCode::BrowserRefresh => 124u32, KeyCode::BrowserSearch => 125u32, KeyCode::BrowserStop => 126u32, KeyCode::Eject => 127u32,
        KeyCode::LaunchApp1 => 128u32, KeyCode::LaunchApp2 => 129u32, KeyCode::LaunchMail => 130u32, KeyCode::MediaPlayPause => 131u32,
        KeyCode::MediaSelect => 132u32, KeyCode::MediaStop => 133u32, KeyCode::MediaTrackNext => 134u32, KeyCode::MediaTrackPrevious => 135u32,
        KeyCode::Power => 136u32, KeyCode::Sleep => 137u32, KeyCode::AudioVolumeDown => 138u32, KeyCode::AudioVolumeMute => 139u32,
        KeyCode::AudioVolumeUp => 140u32, KeyCode::WakeUp => 141u32, KeyCode::Hyper => 142u32, KeyCode::Super => 143u32,
        KeyCode::Turbo => 144u32, KeyCode::Abort => 145u32, KeyCode::Resume => 146u32, KeyCode::Suspend => 147u32,
        KeyCode::Again => 148u32, KeyCode::Copy => 149u32, KeyCode::Cut => 150u32, KeyCode::Find => 151u32,
        KeyCode::Open => 152u32, KeyCode::Paste => 153u32, KeyCode::Props => 154u32, KeyCode::Select => 155u32,
        KeyCode::Undo => 156u32, KeyCode::Hiragana => 157u32, KeyCode::Katakana => 158u32, KeyCode::Unidentified => 159u32,
        KeyCode::F1 => 160u32, KeyCode::F2 => 161u32, KeyCode::F3 => 162u32, KeyCode::F4 => 163u32,
        KeyCode::F5 => 164u32, KeyCode::F6 => 165u32, KeyCode::F7 => 166u32, KeyCode::F8 => 167u32,
        KeyCode::F9 => 168u32, KeyCode::F10 => 169u32, KeyCode::F11 => 170u32, KeyCode::F12 => 171u32,
        KeyCode::F13 => 172u32, KeyCode::F14 => 173u32, KeyCode::F15 => 174u32, KeyCode::F16 => 175u32,
        KeyCode::F17 => 176u32, KeyCode::F18 => 177u32, KeyCode::F19 => 178u32, KeyCode::F20 => 179u32,
        KeyCode::F21 => 180u32, KeyCode::F22 => 181u32, KeyCode::F23 => 182u32, KeyCode::F24 => 183u32,
        KeyCode::F25 => 184u32, KeyCode::F26 => 185u32, KeyCode::F27 => 186u32, KeyCode::F28 => 187u32,
        KeyCode::F29 => 188u32, KeyCode::F30 => 189u32, KeyCode::F31 => 190u32, KeyCode::F32 => 191u32,
        KeyCode::F33 => 192u32, KeyCode::F34 => 193u32, KeyCode::F35 => 194u32, KeyCode::BrightnessDown => 195u32,
        KeyCode::BrightnessUp => 196u32, KeyCode::DisplayToggleIntExt => 197u32, KeyCode::KeyboardLayoutSelect => 198u32, KeyCode::LaunchAssistant => 199u32,
        KeyCode::LaunchControlPanel => 200u32, KeyCode::LaunchScreenSaver => 201u32, KeyCode::MailForward => 202u32, KeyCode::MailReply => 203u32,
        KeyCode::MailSend => 204u32, KeyCode::MediaFastForward => 205u32, KeyCode::MediaPause => 206u32, KeyCode::MediaPlay => 207u32,
        KeyCode::MediaRecord => 208u32, KeyCode::MediaRewind => 209u32, KeyCode::MicrophoneMuteToggle => 210u32, KeyCode::PrivacyScreenToggle => 211u32,
        KeyCode::KeyboardBacklightToggle => 212u32, KeyCode::SelectTask => 213u32, KeyCode::ShowAllWindows => 214u32, KeyCode::ZoomToggle => 215u32,
    }
}

/// The key with a given number in the hotkey library's key code list, if any.
#[verifier::opaque]
pub open spec fn key_of_number(n: u32) -> Option<KeyCode> {
    match n {
        0u32 => Some(KeyCode::Backquote), 1u32 => Some(KeyCode::Backslash), 2u32 => Some(KeyCode::BracketLeft), 3u32 => Some(KeyCode::BracketRight),
        4u32 => Some(KeyCode::Comma), 5u32 => Some(KeyCode::Digit0), 6u32 => Some(KeyCode::Digit1), 7u32 => Some(KeyCode::Digit2),
        8u32 => Some(KeyCode::Digit3), 9u32 => Some(KeyCode::Digit4), 10u32 => Some(KeyCode::Digit5), 11u32 => Some(KeyCode::Digit6),
        12u32 => Some(KeyCode::Digit7), 13u32 => Some(KeyCode::Digit8), 14u32 => Some(KeyCode::Digit9), 15u32 => Some(KeyCode::Equal),
        16u32 => Some(KeyCode::IntlBackslash), 17u32 => Some(KeyCode::IntlRo), 18u32 => Some(KeyCode::IntlYen), 19u32 => Some(KeyCode::KeyA),
        20u32 => Some(KeyCode::KeyB), 21u32 => Some(KeyCode::KeyC), 22u32 => Some(KeyCode::KeyD), 23u32 => Some(KeyCode::KeyE),
        24u32 => Some(KeyCode::KeyF), 25u32 => Some(KeyCode::KeyG), 26u32 => Some(KeyCode::KeyH), 27u32 => Some(KeyCode::KeyI),
        28u32 => Some(KeyCode::KeyJ), 29u32 => Some(KeyCode::KeyK), 30u32 => Some(KeyCode::KeyL), 31u32 => Some(KeyCode::KeyM),
        32u32 => Some(KeyCode::KeyN), 33u32 => Some(KeyCode::KeyO), 34u32 => Some(KeyCode::KeyP), 35u32 => Some(KeyCode::KeyQ),
        36u32 => Some(KeyCode::KeyR), 37u32 => Some(KeyCode::KeyS), 38u32 => Some(KeyCode::KeyT), 39u32 => Some(KeyCode::KeyU),
        40u32 => Some(KeyCode::KeyV), 41u32 => Some(KeyCode::KeyW), 42u32 => Some(KeyCode::KeyX), 43u32 => Some(KeyCode::KeyY),
        44u32 => Some(KeyCode::KeyZ), 45u32 => Some(KeyCode::Minus), 46u32 => Some(KeyCode::Period), 47u32 => Some(KeyCode::Quote),
        48u32 => Some(KeyCode::Semicolon), 49u32 => Some(KeyCode::Slash), 50u32 => Some(KeyCode::AltLeft), 51u32 => Some(KeyCode::AltRight),
        52u32 => Some(KeyCode::Backspace), 53u32 => Some(KeyCode::CapsLock), 54u32 => Some(KeyCode::ContextMenu), 55u32 => Some(KeyCode::ControlLeft),
        56u32 => Some(KeyCode::ControlRight), 57u32 => Some(KeyCode::Enter), 58u32 => Some(KeyCode::MetaLeft), 59u32 => Some(KeyCode::MetaRight),
        60u32 => Some(KeyCode::ShiftLeft), 61u32 => Some(KeyCode::ShiftRight), 62u32 => Some(KeyCode::Space), 63u32 => Some(KeyCode::Tab),
        64u32 => Some(KeyCode::Convert), 65u32 => Some(KeyCode::KanaMode), 66u32 => Some(KeyCode::Lang1), 67u32 => Some(KeyCode::Lang2),
        68u32 => Some(KeyCode::Lang3), 69u32 => Some(KeyCode::Lang4), 70u32 => Some(KeyCode::Lang5), 71u32 => Some(KeyCode::NonConvert),
        72u32 => Some(KeyCode::Delete), 73u32 => Some(KeyCode::End), 74u32 => Some(KeyCode::Help), 75u32 => Some(KeyCode::Home),
        76u32 => Some(KeyCode::Insert), 77u32 => Some(KeyCode::PageDown), 78u32 => Some(KeyCode::PageUp), 79u32 => Some(KeyCode::ArrowDown),
        80u32 => Some(KeyCode::ArrowLeft), 81u32 => Some(KeyCode::ArrowRight), 82u32 => Some(KeyCode::ArrowUp), 83u32 => Some(KeyCode::NumLock),
        84u32 => Some(KeyCode::Numpad0), 85u32 => Some(KeyCode::Numpad1), 86u32 => Some(KeyCode::Numpad2), 87u32 => Some(KeyCode::Numpad3),
        88u32 => Some(KeyCode::Numpad4), 89u32 => Some(KeyCode::Numpad5), 90u32 => Some(KeyCode::Numpad6), 91u32 => Some(KeyCode::Numpad7),
        92u32 => Some(KeyCode::Numpad8), 93u32 => Some(KeyCode::Numpad9), 94u32 => Some(KeyCode::NumpadAdd), 95u32 => Some(KeyCode::NumpadBackspace),
        96u32 => Some(KeyCode::NumpadClear), 97u32 => Some(KeyCode::NumpadClearEntry), 98u32 => Some(KeyCode::NumpadComma), 99u32 => Some(KeyCode::NumpadDecimal),
        100u32 => Some(KeyCode::NumpadDivide), 101u32 => Some(KeyCode::NumpadEnter), 102u32 => Some(KeyCode::NumpadEqual), 103u32 => Some(KeyCode::NumpadHash),
        104u32 => Some(KeyCode::NumpadMemoryAdd), 105u32 => Some(KeyCode::NumpadMemoryClear), 106u32 => Some(KeyCode::NumpadMemoryRecall), 107u32 => Some(KeyCode::NumpadMemoryStore),
        108u32 => Some(KeyCode::NumpadMemorySubtract), 109u32 => Some(KeyCode::NumpadMultiply), 110u32 => Some(KeyCode::NumpadParenLeft), 111u32 => Some(KeyCode::NumpadParenRight),
        112u32 => Some(KeyCode::NumpadStar), 113u32 => Some(KeyCode::NumpadSubtract), 114u32 => Some(KeyCode::Escape), 115u32 => Some(KeyCode::Fn),
        116u32 => Some(KeyCode::FnLock), 117u32 => Some(KeyCode::PrintScreen), 118u32 => Some(KeyCode::ScrollLock), 119u32 => Some(KeyCode::Pause),
        120u32 => Some(KeyCode::BrowserBack), 121u32 => Some(KeyCode::BrowserFavorites), 122u32 => Some(KeyCode::BrowserForward), 123u32 => Some(KeyCode::BrowserHome),
        124u32 => Some(KeyCode::BrowserRefresh), 125u32 => Some(KeyCode::BrowserSearch), 126u32 => Some(KeyCode::BrowserStop), 127u32 => Some(KeyCode::Eject),
        128u32 => Some(KeyCode::LaunchApp1), 129u32 => Some(KeyCode::LaunchApp2), 130u32 => Some(KeyCode::LaunchMail), 131u32 => Some(KeyCode::MediaPlayPause),
        132u32 => Some(KeyCode::MediaSelect), 133u32 => Some(KeyCode::MediaStop), 134u32 => Some(KeyCode::MediaTrackNext), 135u32 => Some(KeyCode::MediaTrackPrevious),
        136u32 => Some(KeyCode::Power), 137u32 => Some(KeyCode::Sleep), 138u32 => Some(KeyCode::AudioVolumeDown), 139u32 => Some(KeyCode::AudioVolumeMute),
        140u32 => Some(KeyCode::AudioVolumeUp), 141u32 => Some(KeyCode::WakeUp), 142u32 => Some(KeyCode::Hyper), 143u32 => Some(KeyCode::Super),
        144u32 => Some(KeyCode::Turbo), 145u32 => Some(KeyCode::Abort), 146u32 => Some(KeyCode::Resume), 147u32 => Some(KeyCode::Suspend),
        148u32 => Some(KeyCode::Again), 149u32 => Some(KeyCode::Copy), 150u32 => Some(KeyCode::Cut), 151u32 => Some(KeyCode::Find),
        152u32 => Some(KeyCode::Open), 153u32 => Some(KeyCode::Paste), 154u32 => Some(KeyCode::Props), 155u32 => Some(KeyCode::Select),
        156u32 => Some(KeyCode::Undo), 157u32 => Some(KeyCode::Hiragana), 158u32 => Some(KeyCode::Katakana), 159u32 => Some(KeyCode::Unidentified),
        160u32 => Some(KeyCode::F1), 161u32 => Some(KeyCode::F2), 162u32 => Some(KeyCode::F3), 163u32 => Some(KeyCode::F4),
        164u32 => Some(KeyCode::F5), 165u32 => Some(KeyCode::F6), 166u32 => Some(KeyCode::F7), 167u32 => Some(KeyCode::F8),
        168u32 => Some(KeyCode::F9), 169u32 => Some(KeyCode::F10), 170u32 => Some(KeyCode::F11), 171u32 => Some(KeyCode::F12),
        172u32 => Some(KeyCode::F13), 173u32 => Some(KeyCode::F14), 174u32 => Some(KeyCode::F15), 175u32 => Some(KeyCode::F16),
        176u32 => Some(KeyCode::F17), 177u32 => Some(KeyCode::F18), 178u32 => Some(KeyCode::F19), 179u32 => Some(KeyCode::F20),
        180u32 => Some(KeyCode::F21), 181u32 => Some(KeyCode::F22), 182u32 => Some(KeyCode::F23), 183u32 => Some(KeyCode::F24),
        184u32 => Some(KeyCode::F25), 185u32 => Some(KeyCode::F26), 186u32 => Some(KeyCode::F27), 187u32 => Some(KeyCode::F28),
        188u32 => Some(KeyCode::F29), 189u32 => Some(KeyCode::F30), 190u32 => Some(KeyCode::F31), 191u32 => Some(KeyCode::F32),
        192u32 => Some(KeyCode::F33), 193u32 => Some(KeyCode::F34), 194u32 => Some(KeyCode::F35), 195u32 => Some(KeyCode::BrightnessDown),
        196u32 => Some(KeyCode::BrightnessUp), 197u32 => Some(KeyCode::DisplayToggleIntExt), 198u32 => Some(KeyCode::KeyboardLayoutSelect), 199u32 => Some(KeyCode::LaunchAssistant),
        200u32 => Some(KeyCode::LaunchControlPanel), 201u32 => Some(KeyCode::LaunchScreenSaver), 202u32 => Some(KeyCode::MailForward), 203u32 => Some(KeyCode::MailReply),
        204u32 => Some(KeyCode::MailSend), 205u32 => Some(KeyCode::MediaFastForward), 206u32 => Some(KeyCode::MediaPause), 207u32 => Some(KeyCode::MediaPlay),
        208u32 => Some(KeyCode::MediaRecord), 209u32 => Some(KeyCode::MediaRewind), 210u32 => Some(KeyCode::MicrophoneMuteToggle), 211u32 => Some(KeyCode::PrivacyScreenToggle),
        212u32 => Some(KeyCode::KeyboardBacklightToggle), 213u32 => Some(KeyCode::SelectTask), 214u32 => Some(KeyCode::ShowAllWindows), 215u32 => Some(KeyCode::ZoomToggle),
        _ => Option::<KeyCode>::None,
    }
}

/// The name of a key, as the key picker shows it and the settings file stores it.
#[verifier::opaque]
pub open spec fn key_name(k: KeyCode) -> Seq<char> {
    match k {
        KeyCode::Backquote => "Backquote"@, KeyCode::Backslash => "Backslash"@, KeyCode::BracketLeft => "BracketLeft"@,
        KeyCode::BracketRight => "BracketRight"@, KeyCode::Comma => "Comma"@, KeyCode::Digit0 => "Digit0"@,
        KeyCode::Digit1 => "Digit1"@, KeyCode::Digit2 => "Digit2"@, KeyCode::Digit3 => "Digit3"@,
        KeyCode::Digit4 => "Digit4"@, KeyCode::Digit5 => "Digit5"@, KeyCode::Digit6 => "Digit6"@,
        KeyCode::Digit7 => "Digit7"@, KeyCode::Digit8 => "Digit8"@, KeyCode::Digit9 => "Digit9"@,
        KeyCode::Equal => "Equal"@, KeyCode::IntlBackslash => "IntlBackslash"@, KeyCode::IntlRo => "IntlRo"@,
        KeyCode::IntlYen => "IntlYen"@, KeyCode::KeyA => "KeyA"@, KeyCode::KeyB => "KeyB"@,
        KeyCode::KeyC => "KeyC"@, KeyCode::KeyD => "KeyD"@, KeyCode::KeyE => "KeyE"@,
        KeyCode::KeyF => "KeyF"@, KeyCode::KeyG => "KeyG"@, KeyCode::KeyH => "KeyH"@,
        KeyCode::KeyI => "KeyI"@, KeyCode::KeyJ => "KeyJ"@, KeyCode::KeyK => "KeyK"@,
        KeyCode::KeyL => "KeyL"@, KeyCode::KeyM => "KeyM"@, KeyCode::KeyN => "KeyN"@,
        KeyCode::KeyO => "KeyO"@, KeyCode::KeyP => "KeyP"@, KeyCode::KeyQ => "KeyQ"@,
        KeyCode::KeyR => "KeyR"@, KeyCode::KeyS => "KeyS"@, KeyCode::KeyT => "KeyT"@,
        KeyCode::KeyU => "KeyU"@, KeyCode::KeyV => "KeyV"@, KeyCode::KeyW => "KeyW"@,
        KeyCode::KeyX => "KeyX"@, KeyCode::KeyY => "KeyY"@, KeyCode::KeyZ => "KeyZ"@,
        KeyCode::Minus => "Minus"@, KeyCode::Period => "Period"@, KeyCode::Quote => "Quote"@,
        KeyCode::Semicolon => "Semicolon"@, KeyCode::Slash => "Slash"@, KeyCode::AltLeft => "AltLeft"@,
        KeyCode::AltRight => "AltRight"@, KeyCode::Backspace => "Backspace"@, KeyCode::CapsLock => "CapsLock"@,
        KeyCode::ContextMenu => "ContextMenu"@, KeyCode::ControlLeft => "ControlLeft"@, KeyCode::ControlRight => "ControlRight"@,
        KeyCode::Enter => "Enter"@, KeyCode::MetaLeft => "MetaLeft"@, KeyCode::MetaRight => "MetaRight"@,
        KeyCode::ShiftLeft => "ShiftLeft"@, KeyCode::ShiftRight => "ShiftRight"@, KeyCode::Space => "Space"@,
        KeyCode::Tab => "Tab"@, KeyCode::Convert => "Convert"@, KeyCode::KanaMode => "KanaMode"@,
        KeyCode::Lang1 => "Lang1"@, KeyCode::Lang2 => "Lang2"@, KeyCode::Lang3 => "Lang3"@,
        KeyCode::Lang4 => "Lang4"@, KeyCode::Lang5 => "Lang5"@, KeyCode::NonConvert => "NonConvert"@,
        KeyCode::Delete => "Delete"@, KeyCode::End => "End"@, KeyCode::Help => "Help"@,
        KeyCode::Home => "Home"@, KeyCode::Insert => "Insert"@, KeyCode::PageDown => "PageDown"@,
        KeyCode::PageUp => "PageUp"@, KeyCode::ArrowDown => "ArrowDown"@, KeyCode::ArrowLeft => "ArrowLeft"@,
        KeyCode::ArrowRight => "ArrowRight"@, KeyCode::ArrowUp => "ArrowUp"@, KeyCode::NumLock => "NumLock"@,
        KeyCode::Numpad0 => "Numpad0"@, KeyCode::Numpad1 => "Numpad1"@, KeyCode::Numpad2 => "Numpad2"@,
        KeyCode::Numpad3 => "Numpad3"@, KeyCode::Numpad4 => "Numpad4"@, KeyCode::Numpad5 => "Numpad5"@,
        KeyCode::Numpad6 => "Numpad6"@, KeyCode::Numpad7 => "Numpad7"@, KeyCode::Numpad8 => "Numpad8"@,
        KeyCode::Numpad9 => "Numpad9"@, KeyCode::NumpadAdd => "NumpadAdd"@, KeyCode::NumpadBackspace => "NumpadBackspace"@,
        KeyCode::NumpadClear => "NumpadClear"@, KeyCode::NumpadClearEntry => "NumpadClearEntry"@, KeyCode::NumpadComma => "NumpadComma"@,
        KeyCode::NumpadDecimal => "NumpadDecimal"@, KeyCode::NumpadDivide => "NumpadDivide"@, KeyCode::NumpadEnter => "NumpadEnter"@,
        KeyCode::NumpadEqual => "NumpadEqual"@, KeyCode::NumpadHash => "NumpadHash"@, KeyCode::NumpadMemoryAdd => "NumpadMemoryAdd"@,
        KeyCode::NumpadMemoryClear => "NumpadMemoryClear"@, KeyCode::NumpadMemoryRecall => "NumpadMemoryRecall"@, KeyCode::NumpadMemoryStore => "NumpadMemoryStore"@,
        KeyCode::NumpadMemorySubtract => "NumpadMemorySubtract"@, KeyCode::NumpadMultiply => "NumpadMultiply"@, KeyCode::NumpadParenLeft => "NumpadParenLeft"@,
        KeyCode::NumpadParenRight => "NumpadParenRight"@, KeyCode::NumpadStar => "NumpadStar"@, KeyCode::NumpadSubtract => "NumpadSubtract"@,
        KeyCode::Escape => "Escape"@, KeyCode::Fn => "Fn"@, KeyCode::FnLock => "FnLock"@,
        KeyCode::PrintScreen => "PrintScreen"@, KeyCode::ScrollLock => "ScrollLock"@, KeyCode::Pause => "Pause"@,
        KeyCode::BrowserBack => "BrowserBack"@, KeyCode::BrowserFavorites => "BrowserFavorites"@, KeyCode::BrowserForward => "BrowserForward"@,
        KeyCode::BrowserHome => "BrowserHome"@, KeyCode::BrowserRefresh => "BrowserRefresh"@, KeyCode::BrowserSearch => "BrowserSearch"@,
        KeyCode::BrowserStop => "BrowserStop"@, KeyCode::Eject => "Eject"@, KeyCode::LaunchApp1 => "LaunchApp1"@,
        KeyCode::LaunchApp2 => "LaunchApp2"@, KeyCode::LaunchMail => "LaunchMail"@, KeyCode::MediaPlayPause => "MediaPlayPause"@,
        KeyCode::MediaSelect => "MediaSelect"@, KeyCode::MediaStop => "MediaStop"@, KeyCode::MediaTrackNext => "MediaTrackNext"@,
        KeyCode::MediaTrackPrevious => "MediaTrackPrevious"@, KeyCode::Power => "Power"@, KeyCode::Sleep => "Sleep"@,
        KeyCode::AudioVolumeDown => "AudioVolumeDown"@, KeyCode::AudioVolumeMute => "AudioVolumeMute"@, KeyCode::AudioVolumeUp => "AudioVolumeUp"@,
        KeyCode::WakeUp => "WakeUp"@, KeyCode::Hyper => "Hyper"@, KeyCode::Super => "Super"@,
        KeyCode::Turbo => "Turbo"@, KeyCode::Abort => "Abort"@, KeyCode::Resume => "Resume"@,
        KeyCode::Suspend => "Suspend"@, KeyCode::Again => "Again"@, KeyCode::Copy => "Copy"@,
        KeyCode::Cut => "Cut"@, KeyCode::Find => "Find"@, KeyCode::Open => "Open"@,
        KeyCode::Paste => "Paste"@, KeyCode::Props => "Props"@, KeyCode::Select => "Select"@,
        KeyCode::Undo => "Undo"@, KeyCode::Hiragana => "Hiragana"@, KeyCode::Katakana => "Katakana"@,
        KeyCode::Unidentified => "Unidentified"@, KeyCode::F1 => "F1"@, KeyCode::F2 => "F2"@,
        KeyCode::F3 => "F3"@, KeyCode::F4 => "F4"@, KeyCode::F5 => "F5"@,
        KeyCode::F6 => "F6"@, KeyCode::F7 => "F7"@, KeyCode::F8 => "F8"@,
        KeyCode::F9 => "F9"@, KeyCode::F10 => "F10"@, KeyCode::F11 => "F11"@,
        KeyCode::F12 => "F12"@, KeyCode::F13 => "F13"@, KeyCode::F14 => "F14"@,
        KeyCode::F15 => "F15"@, KeyCode::F16 => "F16"@, KeyCode::F17 => "F17"@,
        KeyCode::F18 => "F18"@, KeyCode::F19 => "F19"@, KeyCode::F20 => "F20"@,
        KeyCode::F21 => "F21"@, KeyCode::F22 => "F22"@, KeyCode::F23 => "F23"@,
        KeyCode::F24 => "F24"@, KeyCode::F25 => "F25"@, KeyCode::F26 => "F26"@,
        KeyCode::F27 => "F27"@, KeyCode::F28 => "F28"@, KeyCode::F29 => "F29"@,
        KeyCode::F30 => "F30"@, KeyCode::F31 => "F31"@, KeyCode::F32 => "F32"@,
        KeyCode::F33 => "F33"@, KeyCode::F34 => "F34"@, KeyCode::F35 => "F35"@,
        KeyCode::BrightnessDown => "BrightnessDown"@, KeyCode::BrightnessUp => "BrightnessUp"@, KeyCode::DisplayToggleIntExt => "DisplayToggleIntExt"@,
        KeyCode::KeyboardLayoutSelect => "KeyboardLayoutSelect"@, KeyCode::LaunchAssistant => "LaunchAssistant"@, KeyCode::LaunchControlPanel => "LaunchControlPanel"@,
        KeyCode::LaunchScreenSaver => "LaunchScreenSaver"@, KeyCode::MailForward => "MailForward"@, KeyCode::MailReply => "MailReply"@,
        KeyCode::MailSend => "MailSend"@, KeyCode::MediaFastForward => "MediaFastForward"@, KeyCode::MediaPause => "MediaPause"@,
        KeyCode::MediaPlay => "MediaPlay"@, KeyCode::MediaRecord => "MediaRecord"@, KeyCode::MediaRewind => "MediaRewind"@,
        KeyCode::MicrophoneMuteToggle => "MicrophoneMuteToggle"@, KeyCode::PrivacyScreenToggle => "PrivacyScreenToggle"@, KeyCode::KeyboardBacklightToggle => "KeyboardBacklightToggle"@,
        KeyCode::SelectTask => "SelectTask"@, KeyCode::ShowAllWindows => "ShowAllWindows"@, KeyCode::ZoomToggle => "ZoomToggle"@,
    }
}

/// Tells a key by the length of its name and the first two and last two
/// characters of it, which differ for every two keys.
pub open spec fn key_of_name_marks(l: nat, a: char, b: char, y: char, z: char) -> Option<KeyCode> {
    if l == 9 && a == 'B' && b == 'a' && y == 'e' && z == 't' {
        Some(KeyCode::Backquote)
    } else if l == 9 && a == 'B' && b == 'a' && y == 'h' && z == 's' {
        Some(KeyCode::Backslash)
    } else if l == 11 && a == 'B' && b == 'r' && y == 't' && z == 'f' {
        Some(KeyCode::BracketLeft)
    } else if l == 12 && a == 'B' && b == 'r' && y == 't' && z == 'h' {
        Some(KeyCode::BracketRight)
    } else if l == 5 && a == 'C' && b == 'o' && y == 'a' && z == 'm' {
        Some(KeyCode::Comma)
    } else if l == 6 && a == 'D' && b == 'i' && y == '0' && z == 't' {
        Some(KeyCode::Digit0)
    } else if l == 6 && a == 'D' && b == 'i' && y == '1' && z == 't' {
        Some(KeyCode::Digit1)
    } else if l == 6 && a == 'D' && b == 'i' && y == '2' && z == 't' {
        Some(KeyCode::Digit2)
    } else if l == 6 && a == 'D' && b == 'i' && y == '3' && z == 't' {
        Some(KeyCode::Digit3)
    } else if l == 6 && a == 'D' && b == 'i' && y == '4' && z == 't' {
        Some(KeyCode::Digit4)
    } else if l == 6 && a == 'D' && b == 'i' && y == '5' && z == 't' {
        Some(KeyCode::Digit5)
    } else if l == 6 && a == 'D' && b == 'i' && y == '6' && z == 't' {
        Some(KeyCode::Digit6)
    } else if l == 6 && a == 'D' && b == 'i' && y == '7' && z == 't' {
        Some(KeyCode::Digit7)
    } else if l == 6 && a == 'D' && b == 'i' && y == '8' && z == 't' {
        Some(KeyCode::Digit8)
    } else if l == 6 && a == 'D' && b == 'i' && y == '9' && z == 't' {
        Some(KeyCode::Digit9)
    } else if l == 5 && a == 'E' && b == 'q' && y == 'l' && z == 'a' {
        Some(KeyCode::Equal)
    } else if l == 13 && a == 'I' && b == 'n' && y == 'h' && z == 's' {
        Some(KeyCode::IntlBackslash)
    } else if l == 6 && a == 'I' && b == 'n' && y == 'o' && z == 'R' {
        Some(KeyCode::IntlRo)
    } else if l == 7 && a == 'I' && b == 'n' && y == 'n' && z == 'e' {
        Some(KeyCode::IntlYen)
    } else if l == 4 && a == 'K' && b == 'e' && y == 'A' && z == 'y' {
        Some(KeyCode::KeyA)
    } else if l == 4 && a == 'K' && b == 'e' && y == 'B' && z == 'y' {
        Some(KeyCode::KeyB)
    } else if l == 4 && a == 'K' && b == 'e' && y == 'C' && z == 'y' {
        Some(KeyCode::KeyC)
    } else if l == 4 && a == 'K' && b == 'e' && y == 'D' && z == 'y' {
        Some(KeyCode::KeyD)
    } else if l == 4 && a == 'K' && b == 'e' && y == 'E' && z == 'y' {
        Some(KeyCode::KeyE)
    } else if l == 4 && a == 'K' && b == 'e' && y == 'F' && z == 'y' {
        Some(KeyCode::KeyF)
    } else if l == 4 && a == 'K' && b == 'e' && y == 'G' && z == 'y' {
        Some(KeyCode::KeyG)
    } else if l == 4 && a == 'K' && b == 'e' && y == 'H' && z == 'y' {
        Some(KeyCode::KeyH)
    } else if l == 4 && a == 'K' && b == 'e' && y == 'I' && z == 'y' {
        Some(KeyCode::KeyI)
    } else if l == 4 && a == 'K' && b == 'e' && y == 'J' && z == 'y' {
        Some(KeyCode::KeyJ)
    } else if l == 4 && a == 'K' && b == 'e' && y == 'K' && z == 'y' {
        Some(KeyCode::KeyK)
    } else if l == 4 && a == 'K' && b == 'e' && y == 'L' && z == 'y' {
        Some(KeyCode::KeyL)
    } else if l == 4 && a == 'K' && b == 'e' && y == 'M' && z == 'y' {
        Some(KeyCode::KeyM)
    } else if l == 4 && a == 'K' && b == 'e' && y == 'N' && z == 'y' {
        Some(KeyCode::KeyN)
    } else if l == 4 && a == 'K' && b == 'e' && y == 'O' && z == 'y' {
        Some(KeyCode::KeyO)
    } else if l == 4 && a == 'K' && b == 'e' && y == 'P' && z == 'y' {
        Some(KeyCode::KeyP)
    } else if l == 4 && a == 'K' && b == 'e' && y == 'Q' && z == 'y' {
        Some(KeyCode::KeyQ)
    } else if l == 4 && a == 'K' && b == 'e' && y == 'R' && z == 'y' {
        Some(KeyCode::KeyR)
    } else if l == 4 && a == 'K' && b == 'e' && y == 'S' && z == 'y' {
        Some(KeyCode::KeyS)
    } else if l == 4 && a == 'K' && b == 'e' && y == 'T' && z == 'y' {
        Some(KeyCode::KeyT)
    } else if l == 4 && a == 'K' && b == 'e' && y == 'U' && z == 'y' {
        Some(KeyCode::KeyU)
    } else if l == 4 && a == 'K' && b == 'e' && y == 'V' && z == 'y' {
        Some(KeyCode::KeyV)
    } else if l == 4 && a == 'K' && b == 'e' && y == 'W' && z == 'y' {
        Some(KeyCode::KeyW)
    } else if l == 4 && a == 'K' && b == 'e' && y == 'X' && z == 'y' {
        Some(KeyCode::KeyX)
    } else if l == 4 && a == 'K' && b == 'e' && y == 'Y' && z == 'y' {
        Some(KeyCode::KeyY)
    } else if l == 4 && a == 'K' && b == 'e' && y == 'Z' && z == 'y' {
        Some(KeyCode::KeyZ)
    } else if l == 5 && a == 'M' && b == 'i' && y == 's' && z == 'u' {
        Some(KeyCode::Minus)
    } else if l == 6 && a == 'P' && b == 'e' && y == 'd' && z == 'o' {
        Some(KeyCode::Period)
    } else if l == 5 && a == 'Q' && b == 'u' && y == 'e' && z == 't' {
        Some(KeyCode::Quote)
    } else if l == 9 && a == 'S' && b == 'e' && y == 'n' && z == 'o' {
        Some(KeyCode::Semicolon)
    } else if l == 5 && a == 'S' && b == 'l' && y == 'h' && z == 's' {
        Some(KeyCode::Slash)
    } else if l == 7 && a == 'A' && b == 'l' && y == 't' && z == 'f' {
        Some(KeyCode::AltLeft)
    } else if l == 8 && a == 'A' && b == 'l' && y == 't' && z == 'h' {
        Some(KeyCode::AltRight)
    } else if l == 9 && a == 'B' && b == 'a' && y == 'e' && z == 'c' {
        Some(KeyCode::Backspace)
    } else if l == 8 && a == 'C' && b == 'a' && y == 'k' && z == 'c' {
        Some(KeyCode::CapsLock)
    } else if l == 11 && a == 'C' && b == 'o' && y == 'u' && z == 'n' {
        Some(KeyCode::ContextMenu)
    } else if l == 11 && a == 'C' && b == 'o' && y == 't' && z == 'f' {
        Some(KeyCode::ControlLeft)
    } else if l == 12 && a == 'C' && b == 'o' && y == 't' && z == 'h' {
        Some(KeyCode::ControlRight)
    } else if l == 5 && a == 'E' && b == 'n' && y == 'r' && z == 'e' {
        Some(KeyCode::Enter)
    } else if l == 8 && a == 'M' && b == 'e' && y == 't' && z == 'f' {
        Some(KeyCode::MetaLeft)
    } else if l == 9 && a == 'M' && b == 'e' && y == 't' && z == 'h' {
        Some(KeyCode::MetaRight)
    } else if l == 9 && a == 'S' && b == 'h' && y == 't' && z == 'f' {
        Some(KeyCode::ShiftLeft)
    } else if l == 10 && a == 'S' && b == 'h' && y == 't' && z == 'h' {
        Some(KeyCode::ShiftRight)
    } else if l == 5 && a == 'S' && b == 'p' && y == 'e' && z == 'c' {
        Some(KeyCode::Space)
    } else if l == 3 && a == 'T' && b == 'a' && y == 'b' && z == 'a' {
        Some(KeyCode::Tab)
    } else if l == 7 && a == 'C' && b == 'o' && y == 't' && z == 'r' {
        Some(KeyCode::Convert)
    } else if l == 8 && a == 'K' && b == 'a' && y == 'e' && z == 'd' {
        Some(KeyCode::KanaMode)
    } else if l == 5 && a == 'L' && b == 'a' && y == '1' && z == 'g' {
        Some(KeyCode::Lang1)
    } else if l == 5 && a == 'L' && b == 'a' && y == '2' && z == 'g' {
        Some(KeyCode::Lang2)
    } else if l == 5 && a == 'L' && b == 'a' && y == '3' && z == 'g' {
        Some(KeyCode::Lang3)
    } else if l == 5 && a == 'L' && b == 'a' && y == '4' && z == 'g' {
        Some(KeyCode::Lang4)
    } else if l == 5 && a == 'L' && b == 'a' && y == '5' && z == 'g' {
        Some(KeyCode::Lang5)
    } else if l == 10 && a == 'N' && b == 'o' && y == 't' && z == 'r' {
        Some(KeyCode::NonConvert)
    } else if l == 6 && a == 'D' && b == 'e' && y == 'e' && z == 't' {
        Some(KeyCode::Delete)
    } else if l == 3 && a == 'E' && b == 'n' && y == 'd' && z == 'n' {
        Some(KeyCode::End)
    } else if l == 4 && a == 'H' && b == 'e' && y == 'p' && z == 'l' {
        Some(KeyCode::Help)
    } else if l == 4 && a == 'H' && b == 'o' && y == 'e' && z == 'm' {
        Some(KeyCode::Home)
    } else if l == 6 && a == 'I' && b == 'n' && y == 't' && z == 'r' {
        Some(KeyCode::Insert)
    } else if l == 8 && a == 'P' && b == 'a' && y == 'n' && z == 'w' {
        Some(KeyCode::PageDown)
    } else if l == 6 && a == 'P' && b == 'a' && y == 'p' && z == 'U' {
        Some(KeyCode::PageUp)
    } else if l == 9 && a == 'A' && b == 'r' && y == 'n' && z == 'w' {
        Some(KeyCode::ArrowDown)
    } else if l == 9 && a == 'A' && b == 'r' && y == 't' && z == 'f' {
        Some(KeyCode::ArrowLeft)
    } else if l == 10 && a == 'A' && b == 'r' && y == 't' && z == 'h' {
        Some(KeyCode::ArrowRight)
    } else if l == 7 && a == 'A' && b == 'r' && y == 'p' && z == 'U' {
        Some(KeyCode::ArrowUp)
    } else if l == 7 && a == 'N' && b == 'u' && y == 'k' && z == 'c' {
        Some(KeyCode::NumLock)
    } else if l == 7 && a == 'N' && b == 'u' && y == '0' && z == 'd' {
        Some(KeyCode::Numpad0)
    } else if l == 7 && a == 'N' && b == 'u' && y == '1' && z == 'd' {
        Some(KeyCode::Numpad1)
    } else if l == 7 && a == 'N' && b == 'u' && y == '2' && z == 'd' {
        Some(KeyCode::Numpad2)
    } else if l == 7 && a == 'N' && b == 'u' && y == '3' && z == 'd' {
        Some(KeyCode::Numpad3)
    } else if l == 7 && a == 'N' && b == 'u' && y == '4' && z == 'd' {
        Some(KeyCode::Numpad4)
    } else if l == 7 && a == 'N' && b == 'u' && y == '5' && z == 'd' {
        Some(KeyCode::Numpad5)
    } else if l == 7 && a == 'N' && b == 'u' && y == '6' && z == 'd' {
        Some(KeyCode::Numpad6)
    } else if l == 7 && a == 'N' && b == 'u' && y == '7' && z == 'd' {
        Some(KeyCode::Numpad7)
    } else if l == 7 && a == 'N' && b == 'u' && y == '8' && z == 'd' {
        Some(KeyCode::Numpad8)
    } else if l == 7 && a == 'N' && b == 'u' && y == '9' && z == 'd' {
        Some(KeyCode::Numpad9)
    } else if l == 9 && a == 'N' && b == 'u' && y == 'd' && z == 'd' {
        Some(KeyCode::NumpadAdd)
    } else if l == 15 && a == 'N' && b == 'u' && y == 'e' && z == 'c' {
        Some(KeyCode::NumpadBackspace)
    } else if l == 11 && a == 'N' && b == 'u' && y == 'r' && z == 'a' {
        Some(KeyCode::NumpadClear)
    } else if l == 16 && a == 'N' && b == 'u' && y == 'y' && z == 'r' {
        Some(KeyCode::NumpadClearEntry)
    } else if l == 11 && a == 'N' && b == 'u' && y == 'a' && z == 'm' {
        Some(KeyCode::NumpadComma)
    } else if l == 13 && a == 'N' && b == 'u' && y == 'l' && z == 'a' {
        Some(KeyCode::NumpadDecimal)
    } else if l == 12 && a == 'N' && b == 'u' && y == 'e' && z == 'd' {
        Some(KeyCode::NumpadDivide)
    } else if l == 11 && a == 'N' && b == 'u' && y == 'r' && z == 'e' {
        Some(KeyCode::NumpadEnter)
    } else if l == 11 && a == 'N' && b == 'u' && y == 'l' && z == 'a' {
        Some(KeyCode::NumpadEqual)
    } else if l == 10 && a == 'N' && b == 'u' && y == 'h' && z == 's' {
        Some(KeyCode::NumpadHash)
    } else if l == 15 && a == 'N' && b == 'u' && y == 'd' && z == 'd' {
        Some(KeyCode::NumpadMemoryAdd)
    } else if l == 17 && a == 'N' && b == 'u' && y == 'r' && z == 'a' {
        Some(KeyCode::NumpadMemoryClear)
    } else if l == 18 && a == 'N' && b == 'u' && y == 'l' && z == 'l' {
        Some(KeyCode::NumpadMemoryRecall)
    } else if l == 17 && a == 'N' && b == 'u' && y == 'e' && z == 'r' {
        Some(KeyCode::NumpadMemoryStore)
    } else if l == 20 && a == 'N' && b == 'u' && y == 't' && z == 'c' {
        Some(KeyCode::NumpadMemorySubtract)
    } else if l == 14 && a == 'N' && b == 'u' && y == 'y' && z == 'l' {
        Some(KeyCode::NumpadMultiply)
    } else if l == 15 && a == 'N' && b == 'u' && y == 't' && z == 'f' {
        Some(KeyCode::NumpadParenLeft)
    } else if l == 16 && a == 'N' && b == 'u' && y == 't' && z == 'h' {
        Some(KeyCode::NumpadParenRight)
    } else if l == 10 && a == 'N' && b == 'u' && y == 'r' && z == 'a' {
        Some(KeyCode::NumpadStar)
    } else if l == 14 && a == 'N' && b == 'u' && y == 't' && z == 'c' {
        Some(KeyCode::NumpadSubtract)
    } else if l == 6 && a == 'E' && b == 's' && y == 'e' && z == 'p' {
        Some(KeyCode::Escape)
    } else if l == 2 && a == 'F' && b == 'n' && y == 'n' && z == 'F' {
        Some(KeyCode::Fn)
    } else if l == 6 && a == 'F' && b == 'n' && y == 'k' && z == 'c' {
        Some(KeyCode::FnLock)
    } else if l == 11 && a == 'P' && b == 'r' && y == 'n' && z == 'e' {
        Some(KeyCode::PrintScreen)
    } else if l == 10 && a == 'S' && b == 'c' && y == 'k' && z == 'c' {
        Some(KeyCode::ScrollLock)
    } else if l == 5 && a == 'P' && b == 'a' && y == 'e' && z == 's' {
        Some(KeyCode::Pause)
    } else if l == 11 && a == 'B' && b == 'r' && y == 'k' && z == 'c' {
        Some(KeyCode::BrowserBack)
    } else if l == 16 && a == 'B' && b == 'r' && y == 's' && z == 'e' {
        Some(KeyCode::BrowserFavorites)
    } else if l == 14 && a == 'B' && b == 'r' && y == 'd' && z == 'r' {
        Some(KeyCode::BrowserForward)
    } else if l == 11 && a == 'B' && b == 'r' && y == 'e' && z == 'm' {
        Some(KeyCode::BrowserHome)
    } else if l == 14 && a == 'B' && b == 'r' && y == 'h' && z == 's' {
        Some(KeyCode::BrowserRefresh)
    } else if l == 13 && a == 'B' && b == 'r' && y == 'h' && z == 'c' {
        Some(KeyCode::BrowserSearch)
    } else if l == 11 && a == 'B' && b == 'r' && y == 'p' && z == 'o' {
        Some(KeyCode::BrowserStop)
    } else if l == 5 && a == 'E' && b == 'j' && y == 't' && z == 'c' {
        Some(KeyCode::Eject)
    } else if l == 10 && a == 'L' && b == 'a' && y == '1' && z == 'p' {
        Some(KeyCode::LaunchApp1)
    } else if l == 10 && a == 'L' && b == 'a' && y == '2' && z == 'p' {
        Some(KeyCode::LaunchApp2)
    } else if l == 10 && a == 'L' && b == 'a' && y == 'l' && z == 'i' {
        Some(KeyCode::LaunchMail)
    } else if l == 14 && a == 'M' && b == 'e' && y == 'e' && z == 's' {
        Some(KeyCode::MediaPlayPause)
    } else if l == 11 && a == 'M' && b == 'e' && y == 't' && z == 'c' {
        Some(KeyCode::MediaSelect)
    } else if l == 9 && a == 'M' && b == 'e' && y == 'p' && z == 'o' {
        Some(KeyCode::MediaStop)
    } else if l == 14 && a == 'M' && b == 'e' && y == 't' && z == 'x' {
        Some(KeyCode::MediaTrackNext)
    } else if l == 18 && a == 'M' && b == 'e' && y == 's' && z == 'u' {
        Some(KeyCode::MediaTrackPrevious)
    } else if l == 5 && a == 'P' && b == 'o' && y == 'r' && z == 'e' {
        Some(KeyCode::Power)
    } else if l == 5 && a == 'S' && b == 'l' && y == 'p' && z == 'e' {
        Some(KeyCode::Sleep)
    } else if l == 15 && a == 'A' && b == 'u' && y == 'n' && z == 'w' {
        Some(KeyCode::AudioVolumeDown)
    } else if l == 15 && a == 'A' && b == 'u' && y == 'e' && z == 't' {
        Some(KeyCode::AudioVolumeMute)
    } else if l == 13 && a == 'A' && b == 'u' && y == 'p' && z == 'U' {
        Some(KeyCode::AudioVolumeUp)
    } else if l == 6 && a == 'W' && b == 'a' && y == 'p' && z == 'U' {
        Some(KeyCode::WakeUp)
    } else if l == 5 && a == 'H' && b == 'y' && y == 'r' && z == 'e' {
        Some(KeyCode::Hyper)
    } else if l == 5 && a == 'S' && b == 'u' && y == 'r' && z == 'e' {
        Some(KeyCode::Super)
    } else if l == 5 && a == 'T' && b == 'u' && y == 'o' && z == 'b' {
        Some(KeyCode::Turbo)
    } else if l == 5 && a == 'A' && b == 'b' && y == 't' && z == 'r' {
        Some(KeyCode::Abort)
    } else if l == 6 && a == 'R' && b == 'e' && y == 'e' && z == 'm' {
        Some(KeyCode::Resume)
    } else if l == 7 && a == 'S' && b == 'u' && y == 'd' && z == 'n' {
        Some(KeyCode::Suspend)
    } else if l == 5 && a == 'A' && b == 'g' && y == 'n' && z == 'i' {
        Some(KeyCode::Again)
    } else if l == 4 && a == 'C' && b == 'o' && y == 'y' && z == 'p' {
        Some(KeyCode::Copy)
    } else if l == 3 && a == 'C' && b == 'u' && y == 't' && z == 'u' {
        Some(KeyCode::Cut)
    } else if l == 4 && a == 'F' && b == 'i' && y == 'd' && z == 'n' {
        Some(KeyCode::Find)
    } else if l == 4 && a == 'O' && b == 'p' && y == 'n' && z == 'e' {
        Some(KeyCode::Open)
    } else if l == 5 && a == 'P' && b == 'a' && y == 'e' && z == 't' {
        Some(KeyCode::Paste)
    } else if l == 5 && a == 'P' && b == 'r' && y == 's' && z == 'p' {
        Some(KeyCode::Props)
    } else if l == 6 && a == 'S' && b == 'e' && y == 't' && z == 'c' {
        Some(KeyCode::Select)
    } else if l == 4 && a == 'U' && b == 'n' && y == 'o' && z == 'd' {
        Some(KeyCode::Undo)
    } else if l == 8 && a == 'H' && b == 'i' && y == 'a' && z == 'n' {
        Some(KeyCode::Hiragana)
    } else if l == 8 && a == 'K' && b == 'a' && y == 'a' && z == 'n' {
        Some(KeyCode::Katakana)
    } else if l == 12 && a == 'U' && b == 'n' && y == 'd' && z == 'e' {
        Some(KeyCode::Unidentified)
    } else if l == 2 && a == 'F' && b == '1' && y == '1' && z == 'F' {
        Some(KeyCode::F1)
    } else if l == 2 && a == 'F' && b == '2' && y == '2' && z == 'F' {
        Some(KeyCode::F2)
    } else if l == 2 && a == 'F' && b == '3' && y == '3' && z == 'F' {
        Some(KeyCode::F3)
    } else if l == 2 && a == 'F' && b == '4' && y == '4' && z == 'F' {
        Some(KeyCode::F4)
    } else if l == 2 && a == 'F' && b == '5' && y == '5' && z == 'F' {
        Some(KeyCode::F5)
    } else if l == 2 && a == 'F' && b == '6' && y == '6' && z == 'F' {
        Some(KeyCode::F6)
    } else if l == 2 && a == 'F' && b == '7' && y == '7' && z == 'F' {
        Some(KeyCode::F7)
    } else if l == 2 && a == 'F' && b == '8' && y == '8' && z == 'F' {
        Some(KeyCode::F8)
    } else if l == 2 && a == 'F' && b == '9' && y == '9' && z == 'F' {
        Some(KeyCode::F9)
    } else if l == 3 && a == 'F' && b == '1' && y == '0' && z == '1' {
        Some(KeyCode::F10)
    } else if l == 3 && a == 'F' && b == '1' && y == '1' && z == '1' {
        Some(KeyCode::F11)
    } else if l == 3 && a == 'F' && b == '1' && y == '2' && z == '1' {
        Some(KeyCode::F12)
    } else if l == 3 && a == 'F' && b == '1' && y == '3' && z == '1' {
        Some(KeyCode::F13)
    } else if l == 3 && a == 'F' && b == '1' && y == '4' && z == '1' {
        Some(KeyCode::F14)
    } else if l == 3 && a == 'F' && b == '1' && y == '5' && z == '1' {
        Some(KeyCode::F15)
    } else if l == 3 && a == 'F' && b == '1' && y == '6' && z == '1' {
        Some(KeyCode::F16)
    } else if l == 3 && a == 'F' && b == '1' && y == '7' && z == '1' {
        Some(KeyCode::F17)
    } else if l == 3 && a == 'F' && b == '1' && y == '8' && z == '1' {
        Some(KeyCode::F18)
    } else if l == 3 && a == 'F' && b == '1' && y == '9' && z == '1' {
        Some(KeyCode::F19)
    } else if l == 3 && a == 'F' && b == '2' && y == '0' && z == '2' {
        Some(KeyCode::F20)
    } else if l == 3 && a == 'F' && b == '2' && y == '1' && z == '2' {
        Some(KeyCode::F21)
    } else if l == 3 && a == 'F' && b == '2' && y == '2' && z == '2' {
        Some(KeyCode::F22)
    } else if l == 3 && a == 'F' && b == '2' && y == '3' && z == '2' {
        Some(KeyCode::F23)
    } else if l == 3 && a == 'F' && b == '2' && y == '4' && z == '2' {
        Some(KeyCode::F24)
    } else if l == 3 && a == 'F' && b == '2' && y == '5' && z == '2' {
        Some(KeyCode::F25)
    } else if l == 3 && a == 'F' && b == '2' && y == '6' && z == '2' {
        Some(KeyCode::F26)
    } else if l == 3 && a == 'F' && b == '2' && y == '7' && z == '2' {
        Some(KeyCode::F27)
    } else if l == 3 && a == 'F' && b == '2' && y == '8' && z == '2' {
        Some(KeyCode::F28)
    } else if l == 3 && a == 'F' && b == '2' && y == '9' && z == '2' {
        Some(KeyCode::F29)
    } else if l == 3 && a == 'F' && b == '3' && y == '0' && z == '3' {
        Some(KeyCode::F30)
    } else if l == 3 && a == 'F' && b == '3' && y == '1' && z == '3' {
        Some(KeyCode::F31)
    } else if l == 3 && a == 'F' && b == '3' && y == '2' && z == '3' {
        Some(KeyCode::F32)
    } else if l == 3 && a == 'F' && b == '3' && y == '3' && z == '3' {
        Some(KeyCode::F33)
    } else if l == 3 && a == 'F' && b == '3' && y == '4' && z == '3' {
        Some(KeyCode::F34)
    } else if l == 3 && a == 'F' && b == '3' && y == '5' && z == '3' {
        Some(KeyCode::F35)
    } else if l == 14 && a == 'B' && b == 'r' && y == 'n' && z == 'w' {
        Some(KeyCode::BrightnessDown)
    } else if l == 12 && a == 'B' && b == 'r' && y == 'p' && z == 'U' {
        Some(KeyCode::BrightnessUp)
    } else if l == 19 && a == 'D' && b == 'i' && y == 't' && z == 'x' {
        Some(KeyCode::DisplayToggleIntExt)
    } else if l == 20 && a == 'K' && b == 'e' && y == 't' && z == 'c' {
        Some(KeyCode::KeyboardLayoutSelect)
    } else if l == 15 && a == 'L' && b == 'a' && y == 't' && z == 'n' {
        Some(KeyCode::LaunchAssistant)
    } else if l == 18 && a == 'L' && b == 'a' && y == 'l' && z == 'e' {
        Some(KeyCode::LaunchControlPanel)
    } else if l == 17 && a == 'L' && b == 'a' && y == 'r' && z == 'e' {
        Some(KeyCode::LaunchScreenSaver)
    } else if l == 11 && a == 'M' && b == 'a' && y == 'd' && z == 'r' {
        Some(KeyCode::MailForward)
    } else if l == 9 && a == 'M' && b == 'a' && y == 'y' && z == 'l' {
        Some(KeyCode::MailReply)
    } else if l == 8 && a == 'M' && b == 'a' && y == 'd' && z == 'n' {
        Some(KeyCode::MailSend)
    } else if l == 16 && a == 'M' && b == 'e' && y == 'd' && z == 'r' {
        Some(KeyCode::MediaFastForward)
    } else if l == 10 && a == 'M' && b == 'e' && y == 'e' && z == 's' {
        Some(KeyCode::MediaPause)
    } else if l == 9 && a == 'M' && b == 'e' && y == 'y' && z == 'a' {
        Some(KeyCode::MediaPlay)
    } else if l == 11 && a == 'M' && b == 'e' && y == 'd' && z == 'r' {
        Some(KeyCode::MediaRecord)
    } else if l == 11 && a == 'M' && b == 'e' && y == 'd' && z == 'n' {
        Some(KeyCode::MediaRewind)
    } else if l == 20 && a == 'M' && b == 'i' && y == 'e' && z == 'l' {
        Some(KeyCode::MicrophoneMuteToggle)
    } else if l == 19 && a == 'P' && b == 'r' && y == 'e' && z == 'l' {
        Some(KeyCode::PrivacyScreenToggle)
    } else if l == 23 && a == 'K' && b == 'e' && y == 'e' && z == 'l' {
        Some(KeyCode::KeyboardBacklightToggle)
    } else if l == 10 && a == 'S' && b == 'e' && y == 'k' && z == 's' {
        Some(KeyCode::SelectTask)
    } else if l == 14 && a == 'S' && b == 'h' && y == 's' && z == 'w' {
        Some(KeyCode::ShowAllWindows)
    } else if l == 10 && a == 'Z' && b == 'o' && y == 'e' && z == 'l' {
        Some(KeyCode::ZoomToggle)
    } else {
        Option::<KeyCode>::None
    }
}

/// The key that a name's length and first two and last two characters tell.
pub open spec fn key_of_name(s: Seq<char>) -> Option<KeyCode> {
    if s.len() >= 2 {
        key_of_name_marks(s.len(), s[0], s[1], s[s.len() - 1], s[s.len() - 2])
    } else {
        Option::<KeyCode>::None
    }
}

/// A key's name tells the key back.
#[verifier::rlimit(100)]
pub proof fn lemma_key_name_roundtrip(k: KeyCode)
    ensures
        key_of_name(key_name(k)) == Some(k),
{
    reveal(key_name);
    match k {
        KeyCode::Backquote => {
            reveal_strlit("Backquote");
        },
        KeyCode::Backslash => {
            reveal_strlit("Backslash");
        },
        KeyCode::BracketLeft => {
            reveal_strlit("BracketLeft");
        },
        KeyCode::BracketRight => {
            reveal_strlit("BracketRight");
        },
        KeyCode::Comma => {
            reveal_strlit("Comma");
        },
        KeyCode::Digit0 => {
            reveal_strlit("Digit0");
        },
        KeyCode::Digit1 => {
            reveal_strlit("Digit1");
        },
        KeyCode::Digit2 => {
            reveal_strlit("Digit2");
        },
        KeyCode::Digit3 => {
            reveal_strlit("Digit3");
        },
        KeyCode::Digit4 => {
            reveal_strlit("Digit4");
        },
        KeyCode::Digit5 => {
            reveal_strlit("Digit5");
        },
        KeyCode::Digit6 => {
            reveal_strlit("Digit6");
        },
        KeyCode::Digit7 => {
            reveal_strlit("Digit7");
        },
        KeyCode::Digit8 => {
            reveal_strlit("Digit8");
        },
        KeyCode::Digit9 => {
            reveal_strlit("Digit9");
        },
        KeyCode::Equal => {
            reveal_strlit("Equal");
        },
        KeyCode::IntlBackslash => {
            reveal_strlit("IntlBackslash");
        },
        KeyCode::IntlRo => {
            reveal_strlit("IntlRo");
        },
        KeyCode::IntlYen => {
            reveal_strlit("IntlYen");
        },
        KeyCode::KeyA => {
            reveal_strlit("KeyA");
        },
        KeyCode::KeyB => {
            reveal_strlit("KeyB");
        },
        KeyCode::KeyC => {
            reveal_strlit("KeyC");
        },
        KeyCode::KeyD => {
            reveal_strlit("KeyD");
        },
        KeyCode::KeyE => {
            reveal_strlit("KeyE");
        },
        KeyCode::KeyF => {
            reveal_strlit("KeyF");
        },
        KeyCode::KeyG => {
            reveal_strlit("KeyG");
        },
        KeyCode::KeyH => {
            reveal_strlit("KeyH");
        },
        KeyCode::KeyI => {
            reveal_strlit("KeyI");
        },
        KeyCode::KeyJ => {
            reveal_strlit("KeyJ");
        },
        KeyCode::KeyK => {
            reveal_strlit("KeyK");
        },
        KeyCode::KeyL => {
            reveal_strlit("KeyL");
        },
        KeyCode::KeyM => {
            reveal_strlit("KeyM");
        },
        KeyCode::KeyN => {
            reveal_strlit("KeyN");
        },
        KeyCode::KeyO => {
            reveal_strlit("KeyO");
        },
        KeyCode::KeyP => {
            reveal_strlit("KeyP");
        },
        KeyCode::KeyQ => {
            reveal_strlit("KeyQ");
        },
        KeyCode::KeyR => {
            reveal_strlit("KeyR");
        },
        KeyCode::KeyS => {
            reveal_strlit("KeyS");
        },
        KeyCode::KeyT => {
            reveal_strlit("KeyT");
        },
        KeyCode::KeyU => {
            reveal_strlit("KeyU");
        },
        KeyCode::KeyV => {
            reveal_strlit("KeyV");
        },
        KeyCode::KeyW => {
            reveal_strlit("KeyW");
        },
        KeyCode::KeyX => {
            reveal_strlit("KeyX");
        },
        KeyCode::KeyY => {
            reveal_strlit("KeyY");
        },
        KeyCode::KeyZ => {
            reveal_strlit("KeyZ");
        },
        KeyCode::Minus => {
            reveal_strlit("Minus");
        },
        KeyCode::Period => {
            reveal_strlit("Period");
        },
        KeyCode::Quote => {
            reveal_strlit("Quote");
        },
        KeyCode::Semicolon => {
            reveal_strlit("Semicolon");
        },
        KeyCode::Slash => {
            reveal_strlit("Slash");
        },
        KeyCode::AltLeft => {
            reveal_strlit("AltLeft");
        },
        KeyCode::AltRight => {
            reveal_strlit("AltRight");
        },
        KeyCode::Backspace => {
            reveal_strlit("Backspace");
        },
        KeyCode::CapsLock => {
            reveal_strlit("CapsLock");
        },
        KeyCode::ContextMenu => {
            reveal_strlit("ContextMenu");
        },
        KeyCode::ControlLeft => {
            reveal_strlit("ControlLeft");
        },
        KeyCode::ControlRight => {
            reveal_strlit("ControlRight");
        },
        KeyCode::Enter => {
            reveal_strlit("Enter");
        },
        KeyCode::MetaLeft => {
            reveal_strlit("MetaLeft");
        },
        KeyCode::MetaRight => {
            reveal_strlit("MetaRight");
        },
        KeyCode::ShiftLeft => {
            reveal_strlit("ShiftLeft");
        },
        KeyCode::ShiftRight => {
            reveal_strlit("ShiftRight");
        },
        KeyCode::Space => {
            reveal_strlit("Space");
        },
        KeyCode::Tab => {
            reveal_strlit("Tab");
        },
        KeyCode::Convert => {
            reveal_strlit("Convert");
        },
        KeyCode::KanaMode => {
            reveal_strlit("KanaMode");
        },
        KeyCode::Lang1 => {
            reveal_strlit("Lang1");
        },
        KeyCode::Lang2 => {
            reveal_strlit("Lang2");
        },
        KeyCode::Lang3 => {
            reveal_strlit("Lang3");
        },
        KeyCode::Lang4 => {
            reveal_strlit("Lang4");
        },
        KeyCode::Lang5 => {
            reveal_strlit("Lang5");
        },
        KeyCode::NonConvert => {
            reveal_strlit("NonConvert");
        },
        KeyCode::Delete => {
            reveal_strlit("Delete");
        },
        KeyCode::End => {
            reveal_strlit("End");
        },
        KeyCode::Help => {
            reveal_strlit("Help");
        },
        KeyCode::Home => {
            reveal_strlit("Home");
        },
        KeyCode::Insert => {
            reveal_strlit("Insert");
        },
        KeyCode::PageDown => {
            reveal_strlit("PageDown");
        },
        KeyCode::PageUp => {
            reveal_strlit("PageUp");
        },
        KeyCode::ArrowDown => {
            reveal_strlit("ArrowDown");
        },
        KeyCode::ArrowLeft => {
            reveal_strlit("ArrowLeft");
        },
        KeyCode::ArrowRight => {
            reveal_strlit("ArrowRight");
        },
        KeyCode::ArrowUp => {
            reveal_strlit("ArrowUp");
        },
        KeyCode::NumLock => {
            reveal_strlit("NumLock");
        },
        KeyCode::Numpad0 => {
            reveal_strlit("Numpad0");
        },
        KeyCode::Numpad1 => {
            reveal_strlit("Numpad1");
        },
        KeyCode::Numpad2 => {
            reveal_strlit("Numpad2");
        },
        KeyCode::Numpad3 => {
            reveal_strlit("Numpad3");
        },
        KeyCode::Numpad4 => {
            reveal_strlit("Numpad4");
        },
        KeyCode::Numpad5 => {
            reveal_strlit("Numpad5");
        },
        KeyCode::Numpad6 => {
            reveal_strlit("Numpad6");
        },
        KeyCode::Numpad7 => {
            reveal_strlit("Numpad7");
        },
        KeyCode::Numpad8 => {
            reveal_strlit("Numpad8");
        },
        KeyCode::Numpad9 => {
            reveal_strlit("Numpad9");
        },
        KeyCode::NumpadAdd => {
            reveal_strlit("NumpadAdd");
        },
        KeyCode::NumpadBackspace => {
            reveal_strlit("NumpadBackspace");
        },
        KeyCode::NumpadClear => {
            reveal_strlit("NumpadClear");
        },
        KeyCode::NumpadClearEntry => {
            reveal_strlit("NumpadClearEntry");
        },
        KeyCode::NumpadComma => {
            reveal_strlit("NumpadComma");
        },
        KeyCode::NumpadDecimal => {
            reveal_strlit("NumpadDecimal");
        },
        KeyCode::NumpadDivide => {
            reveal_strlit("NumpadDivide");
        },
        KeyCode::NumpadEnter => {
            reveal_strlit("NumpadEnter");
        },
        KeyCode::NumpadEqual => {
            reveal_strlit("NumpadEqual");
        },
        KeyCode::NumpadHash => {
            reveal_strlit("NumpadHash");
        },
        KeyCode::NumpadMemoryAdd => {
            reveal_strlit("NumpadMemoryAdd");
        },
        KeyCode::NumpadMemoryClear => {
            reveal_strlit("NumpadMemoryClear");
        },
        KeyCode::NumpadMemoryRecall => {
            reveal_strlit("NumpadMemoryRecall");
        },
        KeyCode::NumpadMemoryStore => {
            reveal_strlit("NumpadMemoryStore");
        },
        KeyCode::NumpadMemorySubtract => {
            reveal_strlit("NumpadMemorySubtract");
        },
        KeyCode::NumpadMultiply => {
            reveal_strlit("NumpadMultiply");
        },
        KeyCode::NumpadParenLeft => {
            reveal_strlit("NumpadParenLeft");
        },
        KeyCode::NumpadParenRight => {
            reveal_strlit("NumpadParenRight");
        },
        KeyCode::NumpadStar => {
            reveal_strlit("NumpadStar");
        },
        KeyCode::NumpadSubtract => {
            reveal_strlit("NumpadSubtract");
        },
        KeyCode::Escape => {
            reveal_strlit("Escape");
        },
        KeyCode::Fn => {
            reveal_strlit("Fn");
        },
        KeyCode::FnLock => {
            reveal_strlit("FnLock");
        },
        KeyCode::PrintScreen => {
            reveal_strlit("PrintScreen");
        },
        KeyCode::ScrollLock => {
            reveal_strlit("ScrollLock");
        },
        KeyCode::Pause => {
            reveal_strlit("Pause");
        },
        KeyCode::BrowserBack => {
            reveal_strlit("BrowserBack");
        },
        KeyCode::BrowserFavorites => {
            reveal_strlit("BrowserFavorites");
        },
        KeyCode::BrowserForward => {
            reveal_strlit("BrowserForward");
        },
        KeyCode::BrowserHome => {
            reveal_strlit("BrowserHome");
        },
        KeyCode::BrowserRefresh => {
            reveal_strlit("BrowserRefresh");
        },
        KeyCode::BrowserSearch => {
            reveal_strlit("BrowserSearch");
        },
        KeyCode::BrowserStop => {
            reveal_strlit("BrowserStop");
        },
        KeyCode::Eject => {
            reveal_strlit("Eject");
        },
        KeyCode::LaunchApp1 => {
            reveal_strlit("LaunchApp1");
        },
        KeyCode::LaunchApp2 => {
            reveal_strlit("LaunchApp2");
        },
        KeyCode::LaunchMail => {
            reveal_strlit("LaunchMail");
        },
        KeyCode::MediaPlayPause => {
            reveal_strlit("MediaPlayPause");
        },
        KeyCode::MediaSelect => {
            reveal_strlit("MediaSelect");
        },
        KeyCode::MediaStop => {
            reveal_strlit("MediaStop");
        },
        KeyCode::MediaTrackNext => {
            reveal_strlit("MediaTrackNext");
        },
        KeyCode::MediaTrackPrevious => {
            reveal_strlit("MediaTrackPrevious");
        },
        KeyCode::Power => {
            reveal_strlit("Power");
        },
        KeyCode::Sleep => {
            reveal_strlit("Sleep");
        },
        KeyCode::AudioVolumeDown => {
            reveal_strlit("AudioVolumeDown");
        },
        KeyCode::AudioVolumeMute => {
            reveal_strlit("AudioVolumeMute");
        },
        KeyCode::AudioVolumeUp => {
            reveal_strlit("AudioVolumeUp");
        },
        KeyCode::WakeUp => {
            reveal_strlit("WakeUp");
        },
        KeyCode::Hyper => {
            reveal_strlit("Hyper");
        },
        KeyCode::Super => {
            reveal_strlit("Super");
        },
        KeyCode::Turbo => {
            reveal_strlit("Turbo");
        },
        KeyCode::Abort => {
            reveal_strlit("Abort");
        },
        KeyCode::Resume => {
            reveal_strlit("Resume");
        },
        KeyCode::Suspend => {
            reveal_strlit("Suspend");
        },
        KeyCode::Again => {
            reveal_strlit("Again");
        },
        KeyCode::Copy => {
            reveal_strlit("Copy");
        },
        KeyCode::Cut => {
            reveal_strlit("Cut");
        },
        KeyCode::Find => {
            reveal_strlit("Find");
        },
        KeyCode::Open => {
            reveal_strlit("Open");
        },
        KeyCode::Paste => {
            reveal_strlit("Paste");
        },
        KeyCode::Props => {
            reveal_strlit("Props");
        },
        KeyCode::Select => {
            reveal_strlit("Select");
        },
        KeyCode::Undo => {
            reveal_strlit("Undo");
        },
        KeyCode::Hiragana => {
            reveal_strlit("Hiragana");
        },
        KeyCode::Katakana => {
            reveal_strlit("Katakana");
        },
        KeyCode::Unidentified => {
            reveal_strlit("Unidentified");
        },
        KeyCode::F1 => {
            reveal_strlit("F1");
        },
        KeyCode::F2 => {
            reveal_strlit("F2");
        },
        KeyCode::F3 => {
            reveal_strlit("F3");
        },
        KeyCode::F4 => {
            reveal_strlit("F4");
        },
        KeyCode::F5 => {
            reveal_strlit("F5");
        },
        KeyCode::F6 => {
            reveal_strlit("F6");
        },
        KeyCode::F7 => {
            reveal_strlit("F7");
        },
        KeyCode::F8 => {
            reveal_strlit("F8");
        },
        KeyCode::F9 => {
            reveal_strlit("F9");
        },
        KeyCode::F10 => {
            reveal_strlit("F10");
        },
        KeyCode::F11 => {
            reveal_strlit("F11");
        },
        KeyCode::F12 => {
            reveal_strlit("F12");
        },
        KeyCode::F13 => {
            reveal_strlit("F13");
        },
        KeyCode::F14 => {
            reveal_strlit("F14");
        },
        KeyCode::F15 => {
            reveal_strlit("F15");
        },
        KeyCode::F16 => {
            reveal_strlit("F16");
        },
        KeyCode::F17 => {
            reveal_strlit("F17");
        },
        KeyCode::F18 => {
            reveal_strlit("F18");
        },
        KeyCode::F19 => {
            reveal_strlit("F19");
        },
        KeyCode::F20 => {
            reveal_strlit("F20");
        },
        KeyCode::F21 => {
            reveal_strlit("F21");
        },
        KeyCode::F22 => {
            reveal_strlit("F22");
        },
        KeyCode::F23 => {
            reveal_strlit("F23");
        },
        KeyCode::F24 => {
            reveal_strlit("F24");
        },
        KeyCode::F25 => {
            reveal_strlit("F25");
        },
        KeyCode::F26 => {
            reveal_strlit("F26");
        },
        KeyCode::F27 => {
            reveal_strlit("F27");
        },
        KeyCode::F28 => {
            reveal_strlit("F28");
        },
        KeyCode::F29 => {
            reveal_strlit("F29");
        },
        KeyCode::F30 => {
            reveal_strlit("F30");
        },
        KeyCode::F31 => {
            reveal_strlit("F31");
        },
        KeyCode::F32 => {
            reveal_strlit("F32");
        },
        KeyCode::F33 => {
            reveal_strlit("F33");
        },
        KeyCode::F34 => {
            reveal_strlit("F34");
        },
        KeyCode::F35 => {
            reveal_strlit("F35");
        },
        KeyCode::BrightnessDown => {
            reveal_strlit("BrightnessDown");
        },
        KeyCode::BrightnessUp => {
            reveal_strlit("BrightnessUp");
        },
        KeyCode::DisplayToggleIntExt => {
            reveal_strlit("DisplayToggleIntExt");
        },
        KeyCode::KeyboardLayoutSelect => {
            reveal_strlit("KeyboardLayoutSelect");
        },
        KeyCode::LaunchAssistant => {
            reveal_strlit("LaunchAssistant");
        },
        KeyCode::LaunchControlPanel => {
            reveal_strlit("LaunchControlPanel");
        },
        KeyCode::LaunchScreenSaver => {
            reveal_strlit("LaunchScreenSaver");
        },
        KeyCode::MailForward => {
            reveal_strlit("MailForward");
        },
        KeyCode::MailReply => {
            reveal_strlit("MailReply");
        },
        KeyCode::MailSend => {
            reveal_strlit("MailSend");
        },
        KeyCode::MediaFastForward => {
            reveal_strlit("MediaFastForward");
        },
        KeyCode::MediaPause => {
            reveal_strlit("MediaPause");
        },
        KeyCode::MediaPlay => {
            reveal_strlit("MediaPlay");
        },
        KeyCode::MediaRecord => {
            reveal_strlit("MediaRecord");
        },
        KeyCode::MediaRewind => {
            reveal_strlit("MediaRewind");
        },
        KeyCode::MicrophoneMuteToggle => {
            reveal_strlit("MicrophoneMuteToggle");
        },
        KeyCode::PrivacyScreenToggle => {
            reveal_strlit("PrivacyScreenToggle");
        },
        KeyCode::KeyboardBacklightToggle => {
            reveal_strlit("KeyboardBacklightToggle");
        },
        KeyCode::SelectTask => {
            reveal_strlit("SelectTask");
        },
        KeyCode::ShowAllWindows => {
            reveal_strlit("ShowAllWindows");
        },
        KeyCode::ZoomToggle => {
            reveal_strlit("ZoomToggle");
        },
    }
}

/// No two keys have the same name.
pub proof fn lemma_key_name_injective(c1: KeyCode, c2: KeyCode)
    requires
        key_name(c1) == key_name(c2),
    ensures
        c1 == c2,
{
    lemma_key_name_roundtrip(c1);
    lemma_key_name_roundtrip(c2);
}

/// Every key has a number below [`KEY_CODE_COUNT`], under which it is found again.
pub proof fn lemma_key_number_roundtrip(k: KeyCode)
    ensures
        key_number(k) < KEY_CODE_COUNT,
        key_of_number(key_number(k)) == Some(k),
{
    reveal(key_of_number);
    match k {
        KeyCode::Backquote => {}, KeyCode::Backslash => {}, KeyCode::BracketLeft => {}, KeyCode::BracketRight => {},
        KeyCode::Comma => {}, KeyCode::Digit0 => {}, KeyCode::Digit1 => {}, KeyCode::Digit2 => {},
        KeyCode::Digit3 => {}, KeyCode::Digit4 => {}, KeyCode::Digit5 => {}, KeyCode::Digit6 => {},
        KeyCode::Digit7 => {}, KeyCode::Digit8 => {}, KeyCode::Digit9 => {}, KeyCode::Equal => {},
        KeyCode::IntlBackslash => {}, KeyCode::IntlRo => {}, KeyCode::IntlYen => {}, KeyCode::KeyA => {},
        KeyCode::KeyB => {}, KeyCode::KeyC => {}, KeyCode::KeyD => {}, KeyCode::KeyE => {},
        KeyCode::KeyF => {}, KeyCode::KeyG => {}, KeyCode::KeyH => {}, KeyCode::KeyI => {},
        KeyCode::KeyJ => {}, KeyCode::KeyK => {}, KeyCode::KeyL => {}, KeyCode::KeyM => {},
        KeyCode::KeyN => {}, KeyCode::KeyO => {}, KeyCode::KeyP => {}, KeyCode::KeyQ => {},
        KeyCode::KeyR => {}, KeyCode::KeyS => {}, KeyCode::KeyT => {}, KeyCode::KeyU => {},
        KeyCode::KeyV => {}, KeyCode::KeyW => {}, KeyCode::KeyX => {}, KeyCode::KeyY => {},
        KeyCode::KeyZ => {}, KeyCode::Minus => {}, KeyCode::Period => {}, KeyCode::Quote => {},
        KeyCode::Semicolon => {}, KeyCode::Slash => {}, KeyCode::AltLeft => {}, KeyCode::AltRight => {},
        KeyCode::Backspace => {}, KeyCode::CapsLock => {}, KeyCode::ContextMenu => {}, KeyCode::ControlLeft => {},
        KeyCode::ControlRight => {}, KeyCode::Enter => {}, KeyCode::MetaLeft => {}, KeyCode::MetaRight => {},
        KeyCode::ShiftLeft => {}, KeyCode::ShiftRight => {}, KeyCode::Space => {}, KeyCode::Tab => {},
        KeyCode::Convert => {}, KeyCode::KanaMode => {}, KeyCode::Lang1 => {}, KeyCode::Lang2 => {},
        KeyCode::Lang3 => {}, KeyCode::Lang4 => {}, KeyCode::Lang5 => {}, KeyCode::NonConvert => {},
        KeyCode::Delete => {}, KeyCode::End => {}, KeyCode::Help => {}, KeyCode::Home => {},
        KeyCode::Insert => {}, KeyCode::PageDown => {}, KeyCode::PageUp => {}, KeyCode::ArrowDown => {},
        KeyCode::ArrowLeft => {}, KeyCode::ArrowRight => {}, KeyCode::ArrowUp => {}, KeyCode::NumLock => {},
        KeyCode::Numpad0 => {}, KeyCode::Numpad1 => {}, KeyCode::Numpad2 => {}, KeyCode::Numpad3 => {},
        KeyCode::Numpad4 => {}, KeyCode::Numpad5 => {}, KeyCode::Numpad6 => {}, KeyCode::Numpad7 => {},
        KeyCode::Numpad8 => {}, KeyCode::Numpad9 => {}, KeyCode::NumpadAdd => {}, KeyCode::NumpadBackspace => {},
        KeyCode::NumpadClear => {}, KeyCode::NumpadClearEntry => {}, KeyCode::NumpadComma => {}, KeyCode::NumpadDecimal => {},
        KeyCode::NumpadDivide => {}, KeyCode::NumpadEnter => {}, KeyCode::NumpadEqual => {}, KeyCode::NumpadHash => {},
        KeyCode::NumpadMemoryAdd => {}, KeyCode::NumpadMemoryClear => {}, KeyCode::NumpadMemoryRecall => {}, KeyCode::NumpadMemoryStore => {},
        KeyCode::NumpadMemorySubtract => {}, KeyCode::NumpadMultiply => {}, KeyCode::NumpadParenLeft => {}, KeyCode::NumpadParenRight => {},
        KeyCode::NumpadStar => {}, KeyCode::NumpadSubtract => {}, KeyCode::Escape => {}, KeyCode::Fn => {},
        KeyCode::FnLock => {}, KeyCode::PrintScreen => {}, KeyCode::ScrollLock => {}, KeyCode::Pause => {},
        KeyCode::BrowserBack => {}, KeyCode::BrowserFavorites => {}, KeyCode::BrowserForward => {}, KeyCode::BrowserHome => {},
        KeyCode::BrowserRefresh => {}, KeyCode::BrowserSearch => {}, KeyCode::BrowserStop => {}, KeyCode::Eject => {},
        KeyCode::LaunchApp1 => {}, KeyCode::LaunchApp2 => {}, KeyCode::LaunchMail => {}, KeyCode::MediaPlayPause => {},
        KeyCode::MediaSelect => {}, KeyCode::MediaStop => {}, KeyCode::MediaTrackNext => {}, KeyCode::MediaTrackPrevious => {},
        KeyCode::Power => {}, KeyCode::Sleep => {}, KeyCode::AudioVolumeDown => {}, KeyCode::AudioVolumeMute => {},
        KeyCode::AudioVolumeUp => {}, KeyCode::WakeUp => {}, KeyCode::Hyper => {}, KeyCode::Super => {},
        KeyCode::Turbo => {}, KeyCode::Abort => {}, KeyCode::Resume => {}, KeyCode::Suspend => {},
        KeyCode::Again => {}, KeyCode::Copy => {}, KeyCode::Cut => {}, KeyCode::Find => {},
        KeyCode::Open => {}, KeyCode::Paste => {}, KeyCode::Props => {}, KeyCode::Select => {},
        KeyCode::Undo => {}, KeyCode::Hiragana => {}, KeyCode::Katakana => {}, KeyCode::Unidentified => {},
        KeyCode::F1 => {}, KeyCode::F2 => {}, KeyCode::F3 => {}, KeyCode::F4 => {},
        KeyCode::F5 => {}, KeyCode::F6 => {}, KeyCode::F7 => {}, KeyCode::F8 => {},
        KeyCode::F9 => {}, KeyCode::F10 => {}, KeyCode::F11 => {}, KeyCode::F12 => {},
        KeyCode::F13 => {}, KeyCode::F14 => {}, KeyCode::F15 => {}, KeyCode::F16 => {},
        KeyCode::F17 => {}, KeyCode::F18 => {}, KeyCode::F19 => {}, KeyCode::F20 => {},
        KeyCode::F21 => {}, KeyCode::F22 => {}, KeyCode::F23 => {}, KeyCode::F24 => {},
        KeyCode::F25 => {}, KeyCode::F26 => {}, KeyCode::F27 => {}, KeyCode::F28 => {},
        KeyCode::F29 => {}, KeyCode::F30 => {}, KeyCode::F31 => {}, KeyCode::F32 => {},
        KeyCode::F33 => {}, KeyCode::F34 => {}, KeyCode::F35 => {}, KeyCode::BrightnessDown => {},
        KeyCode::BrightnessUp => {}, KeyCode::DisplayToggleIntExt => {}, KeyCode::KeyboardLayoutSelect => {}, KeyCode::LaunchAssistant => {},
        KeyCode::LaunchControlPanel => {}, KeyCode::LaunchScreenSaver => {}, KeyCode::MailForward => {}, KeyCode::MailReply => {},
        KeyCode::MailSend => {}, KeyCode::MediaFastForward => {}, KeyCode::MediaPause => {}, KeyCode::MediaPlay => {},
        KeyCode::MediaRecord => {}, KeyCode::MediaRewind => {}, KeyCode::MicrophoneMuteToggle => {}, KeyCode::PrivacyScreenToggle => {},
        KeyCode::KeyboardBacklightToggle => {}, KeyCode::SelectTask => {}, KeyCode::ShowAllWindows => {}, KeyCode::ZoomToggle => {},
    }
}

/// The keys the key picker offers, in its order: the letters, then the function keys.
pub open spec fn spec_all_keys() -> Seq<KeyCode> {
    seq![
        KeyCode::KeyA, KeyCode::KeyB, KeyCode::KeyC, KeyCode::KeyD, KeyCode::KeyE,
        KeyCode::KeyF, KeyCode::KeyG, KeyCode::KeyH, KeyCode::KeyI, KeyCode::KeyJ,
        KeyCode::KeyK, KeyCode::KeyL, KeyCode::KeyM, KeyCode::KeyN, KeyCode::KeyO,
        KeyCode::KeyP, KeyCode::KeyQ, KeyCode::KeyR, KeyCode::KeyS, KeyCode::KeyT,
        KeyCode::KeyU, KeyCode::KeyV, KeyCode::KeyW, KeyCode::KeyX, KeyCode::KeyY,
        KeyCode::KeyZ, KeyCode::F1, KeyCode::F2, KeyCode::F3, KeyCode::F4,
        KeyCode::F5, KeyCode::F6, KeyCode::F7, KeyCode::F8, KeyCode::F9,
        KeyCode::F10, KeyCode::F11, KeyCode::F12
    ]
}

/// The keys the key picker offers, in its order: the letters, then the function keys.
pub fn all_keys() -> (v: Vec<KeyCode>)
    ensures
        v@ == spec_all_keys(),
{
    let v = vec![
        KeyCode::KeyA, KeyCode::KeyB, KeyCode::KeyC, KeyCode::KeyD, KeyCode::KeyE,
        KeyCode::KeyF, KeyCode::KeyG, KeyCode::KeyH, KeyCode::KeyI, KeyCode::KeyJ,
        KeyCode::KeyK, KeyCode::KeyL, KeyCode::KeyM, KeyCode::KeyN, KeyCode::KeyO,
        KeyCode::KeyP, KeyCode::KeyQ, KeyCode::KeyR, KeyCode::KeyS, KeyCode::KeyT,
        KeyCode::KeyU, KeyCode::KeyV, KeyCode::KeyW, KeyCode::KeyX, KeyCode::KeyY,
        KeyCode::KeyZ, KeyCode::F1, KeyCode::F2, KeyCode::F3, KeyCode::F4,
        KeyCode::F5, KeyCode::F6, KeyCode::F7, KeyCode::F8, KeyCode::F9,
        KeyCode::F10, KeyCode::F11, KeyCode::F12,
    ];
    assert(v@ =~= spec_all_keys());
    v
}

impl KeyCode {
    /// The number of this key in the hotkey library's key code list.
    pub fn number(self) -> (n: u32)
        ensures
            n == key_number(self),
    {
        match self {
            KeyCode::Backquote => 0, KeyCode::Backslash => 1, KeyCode::BracketLeft => 2, KeyCode::BracketRight => 3,
            KeyCode::Comma => 4, KeyCode::Digit0 => 5, KeyCode::Digit1 => 6, KeyCode::Digit2 => 7,
            KeyCode::Digit3 => 8, KeyCode::Digit4 => 9, KeyCode::Digit5 => 10, KeyCode::Digit6 => 11,
            KeyCode::Digit7 => 12, KeyCode::Digit8 => 13, KeyCode::Digit9 => 14, KeyCode::Equal => 15,
            KeyCode::IntlBackslash => 16, KeyCode::IntlRo => 17, KeyCode::IntlYen => 18, KeyCode::KeyA => 19,
            KeyCode::KeyB => 20, KeyCode::KeyC => 21, KeyCode::KeyD => 22, KeyCode::KeyE => 23,
            KeyCode::KeyF => 24, KeyCode::KeyG => 25, KeyCode::KeyH => 26, KeyCode::KeyI => 27,
            KeyCode::KeyJ => 28, KeyCode::KeyK => 29, KeyCode::KeyL => 30, KeyCode::KeyM => 31,
            KeyCode::KeyN => 32, KeyCode::KeyO => 33, KeyCode::KeyP => 34, KeyCode::KeyQ => 35,
            KeyCode::KeyR => 36, KeyCode::KeyS => 37, KeyCode::KeyT => 38, KeyCode::KeyU => 39,
            KeyCode::KeyV => 40, KeyCode::KeyW => 41, KeyCode::KeyX => 42, KeyCode::KeyY => 43,
            KeyCode::KeyZ => 44, KeyCode::Minus => 45, KeyCode::Period => 46, KeyCode::Quote => 47,
            KeyCode::Semicolon => 48, KeyCode::Slash => 49, KeyCode::AltLeft => 50, KeyCode::AltRight => 51,
            KeyCode::Backspace => 52, KeyCode::CapsLock => 53, KeyCode::ContextMenu => 54, KeyCode::ControlLeft => 55,
            KeyCode::ControlRight => 56, KeyCode::Enter => 57, KeyCode::MetaLeft => 58, KeyCode::MetaRight => 59,
            KeyCode::ShiftLeft => 60, KeyCode::ShiftRight => 61, KeyCode::Space => 62, KeyCode::Tab => 63,
            KeyCode::Convert => 64, KeyCode::KanaMode => 65, KeyCode::Lang1 => 66, KeyCode::Lang2 => 67,
            KeyCode::Lang3 => 68, KeyCode::Lang4 => 69, KeyCode::Lang5 => 70, KeyCode::NonConvert => 71,
            KeyCode::Delete => 72, KeyCode::End => 73, KeyCode::Help => 74, KeyCode::Home => 75,
            KeyCode::Insert => 76, KeyCode::PageDown => 77, KeyCode::PageUp => 78, KeyCode::ArrowDown => 79,
            KeyCode::ArrowLeft => 80, KeyCode::ArrowRight => 81, KeyCode::ArrowUp => 82, KeyCode::NumLock => 83,
            KeyCode::Numpad0 => 84, KeyCode::Numpad1 => 85, KeyCode::Numpad2 => 86, KeyCode::Numpad3 => 87,
            KeyCode::Numpad4 => 88, KeyCode::Numpad5 => 89, KeyCode::Numpad6 => 90, KeyCode::Numpad7 => 91,
            KeyCode::Numpad8 => 92, KeyCode::Numpad9 => 93, KeyCode::NumpadAdd => 94, KeyCode::NumpadBackspace => 95,
            KeyCode::NumpadClear => 96, KeyCode::NumpadClearEntry => 97, KeyCode::NumpadComma => 98, KeyCode::NumpadDecimal => 99,
            KeyCode::NumpadDivide => 100, KeyCode::NumpadEnter => 101, KeyCode::NumpadEqual => 102, KeyCode::NumpadHash => 103,
            KeyCode::NumpadMemoryAdd => 104, KeyCode::NumpadMemoryClear => 105, KeyCode::NumpadMemoryRecall => 106, KeyCode::NumpadMemoryStore => 107,
            KeyCode::NumpadMemorySubtract => 108, KeyCode::NumpadMultiply => 109, KeyCode::NumpadParenLeft => 110, KeyCode::NumpadParenRight => 111,
            KeyCode::NumpadStar => 112, KeyCode::NumpadSubtract => 113, KeyCode::Escape => 114, KeyCode::Fn => 115,
            KeyCode::FnLock => 116, KeyCode::PrintScreen => 117, KeyCode::ScrollLock => 118, KeyCode::Pause => 119,
            KeyCode::BrowserBack => 120, KeyCode::BrowserFavorites => 121, KeyCode::BrowserForward => 122, KeyCode::BrowserHome => 123,
            KeyCode::BrowserRefresh => 124, KeyCode::BrowserSearch => 125, KeyCode::BrowserStop => 126, KeyCode::Eject => 127,
            KeyCode::LaunchApp1 => 128, KeyCode::LaunchApp2 => 129, KeyCode::LaunchMail => 130, KeyCode::MediaPlayPause => 131,
            KeyCode::MediaSelect => 132, KeyCode::MediaStop => 133, KeyCode::MediaTrackNext => 134, KeyCode::MediaTrackPrevious => 135,
            KeyCode::Power => 136, KeyCode::Sleep => 137, KeyCode::AudioVolumeDown => 138, KeyCode::AudioVolumeMute => 139,
            KeyCode::AudioVolumeUp => 140, KeyCode::WakeUp => 141, KeyCode::Hyper => 142, KeyCode::Super => 143,
            KeyCode::Turbo => 144, KeyCode::Abort => 145, KeyCode::Resume => 146, KeyCode::Suspend => 147,
            KeyCode::Again => 148, KeyCode::Copy => 149, KeyCode::Cut => 150, KeyCode::Find => 151,
            KeyCode::Open => 152, KeyCode::Paste => 153, KeyCode::Props => 154, KeyCode::Select => 155,
            KeyCode::Undo => 156, KeyCode::Hiragana => 157, KeyCode::Katakana => 158, KeyCode::Unidentified => 159,
            KeyCode::F1 => 160, KeyCode::F2 => 161, KeyCode::F3 => 162, KeyCode::F4 => 163,
            KeyCode::F5 => 164, KeyCode::F6 => 165, KeyCode::F7 => 166, KeyCode::F8 => 167,
            KeyCode::F9 => 168, KeyCode::F10 => 169, KeyCode::F11 => 170, KeyCode::F12 => 171,
            KeyCode::F13 => 172, KeyCode::F14 => 173, KeyCode::F15 => 174, KeyCode::F16 => 175,
            KeyCode::F17 => 176, KeyCode::F18 => 177, KeyCode::F19 => 178, KeyCode::F20 => 179,
            KeyCode::F21 => 180, KeyCode::F22 => 181, KeyCode::F23 => 182, KeyCode::F24 => 183,
            KeyCode::F25 => 184, KeyCode::F26 => 185, KeyCode::F27 => 186, KeyCode::F28 => 187,
            KeyCode::F29 => 188, KeyCode::F30 => 189, KeyCode::F31 => 190, KeyCode::F32 => 191,
            KeyCode::F33 => 192, KeyCode::F34 => 193, KeyCode::F35 => 194, KeyCode::BrightnessDown => 195,
            KeyCode::BrightnessUp => 196, KeyCode::DisplayToggleIntExt => 197, KeyCode::KeyboardLayoutSelect => 198, KeyCode::LaunchAssistant => 199,
            KeyCode::LaunchControlPanel => 200, KeyCode::LaunchScreenSaver => 201, KeyCode::MailForward => 202, KeyCode::MailReply => 203,
            KeyCode::MailSend => 204, KeyCode::MediaFastForward => 205, KeyCode::MediaPause => 206, KeyCode::MediaPlay => 207,
            KeyCode::MediaRecord => 208, KeyCode::MediaRewind => 209, KeyCode::MicrophoneMuteToggle => 210, KeyCode::PrivacyScreenToggle => 211,
            KeyCode::KeyboardBacklightToggle => 212, KeyCode::SelectTask => 213, KeyCode::ShowAllWindows => 214, KeyCode::ZoomToggle => 215,
        }
    }

    /// The name of this key, as the key picker shows it.
    pub fn name(self) -> (s: &'static str)
        ensures
            s@ == key_name(self),
    {
        reveal(key_name);
        match self {
            KeyCode::Backquote => "Backquote", KeyCode::Backslash => "Backslash", KeyCode::BracketLeft => "BracketLeft",
            KeyCode::BracketRight => "BracketRight", KeyCode::Comma => "Comma", KeyCode::Digit0 => "Digit0",
            KeyCode::Digit1 => "Digit1", KeyCode::Digit2 => "Digit2", KeyCode::Digit3 => "Digit3",
            KeyCode::Digit4 => "Digit4", KeyCode::Digit5 => "Digit5", KeyCode::Digit6 => "Digit6",
            KeyCode::Digit7 => "Digit7", KeyCode::Digit8 => "Digit8", KeyCode::Digit9 => "Digit9",
            KeyCode::Equal => "Equal", KeyCode::IntlBackslash => "IntlBackslash", KeyCode::IntlRo => "IntlRo",
            KeyCode::IntlYen => "IntlYen", KeyCode::KeyA => "KeyA", KeyCode::KeyB => "KeyB",
            KeyCode::KeyC => "KeyC", KeyCode::KeyD => "KeyD", KeyCode::KeyE => "KeyE",
            KeyCode::KeyF => "KeyF", KeyCode::KeyG => "KeyG", KeyCode::KeyH => "KeyH",
            KeyCode::KeyI => "KeyI", KeyCode::KeyJ => "KeyJ", KeyCode::KeyK => "KeyK",
            KeyCode::KeyL => "KeyL", KeyCode::KeyM => "KeyM", KeyCode::KeyN => "KeyN",
            KeyCode::KeyO => "KeyO", KeyCode::KeyP => "KeyP", KeyCode::KeyQ => "KeyQ",
            KeyCode::KeyR => "KeyR", KeyCode::KeyS => "KeyS", KeyCode::KeyT => "KeyT",
            KeyCode::KeyU => "KeyU", KeyCode::KeyV => "KeyV", KeyCode::KeyW => "KeyW",
            KeyCode::KeyX => "KeyX", KeyCode::KeyY => "KeyY", KeyCode::KeyZ => "KeyZ",
            KeyCode::Minus => "Minus", KeyCode::Period => "Period", KeyCode::Quote => "Quote",
            KeyCode::Semicolon => "Semicolon", KeyCode::Slash => "Slash", KeyCode::AltLeft => "AltLeft",
            KeyCode::AltRight => "AltRight", KeyCode::Backspace => "Backspace", KeyCode::CapsLock => "CapsLock",
            KeyCode::ContextMenu => "ContextMenu", KeyCode::ControlLeft => "ControlLeft", KeyCode::ControlRight => "ControlRight",
            KeyCode::Enter => "Enter", KeyCode::MetaLeft => "MetaLeft", KeyCode::MetaRight => "MetaRight",
            KeyCode::ShiftLeft => "ShiftLeft", KeyCode::ShiftRight => "ShiftRight", KeyCode::Space => "Space",
            KeyCode::Tab => "Tab", KeyCode::Convert => "Convert", KeyCode::KanaMode => "KanaMode",
            KeyCode::Lang1 => "Lang1", KeyCode::Lang2 => "Lang2", KeyCode::Lang3 => "Lang3",
            KeyCode::Lang4 => "Lang4", KeyCode::Lang5 => "Lang5", KeyCode::NonConvert => "NonConvert",
            KeyCode::Delete => "Delete", KeyCode::End => "End", KeyCode::Help => "Help",
            KeyCode::Home => "Home", KeyCode::Insert => "Insert", KeyCode::PageDown => "PageDown",
            KeyCode::PageUp => "PageUp", KeyCode::ArrowDown => "ArrowDown", KeyCode::ArrowLeft => "ArrowLeft",
            KeyCode::ArrowRight => "ArrowRight", KeyCode::ArrowUp => "ArrowUp", KeyCode::NumLock => "NumLock",
            KeyCode::Numpad0 => "Numpad0", KeyCode::Numpad1 => "Numpad1", KeyCode::Numpad2 => "Numpad2",
            KeyCode::Numpad3 => "Numpad3", KeyCode::Numpad4 => "Numpad4", KeyCode::Numpad5 => "Numpad5",
            KeyCode::Numpad6 => "Numpad6", KeyCode::Numpad7 => "Numpad7", KeyCode::Numpad8 => "Numpad8",
            KeyCode::Numpad9 => "Numpad9", KeyCode::NumpadAdd => "NumpadAdd", KeyCode::NumpadBackspace => "NumpadBackspace",
            KeyCode::NumpadClear => "NumpadClear", KeyCode::NumpadClearEntry => "NumpadClearEntry", KeyCode::NumpadComma => "NumpadComma",
            KeyCode::NumpadDecimal => "NumpadDecimal", KeyCode::NumpadDivide => "NumpadDivide", KeyCode::NumpadEnter => "NumpadEnter",
            KeyCode::NumpadEqual => "NumpadEqual", KeyCode::NumpadHash => "NumpadHash", KeyCode::NumpadMemoryAdd => "NumpadMemoryAdd",
            KeyCode::NumpadMemoryClear => "NumpadMemoryClear", KeyCode::NumpadMemoryRecall => "NumpadMemoryRecall", KeyCode::NumpadMemoryStore => "NumpadMemoryStore",
            KeyCode::NumpadMemorySubtract => "NumpadMemorySubtract", KeyCode::NumpadMultiply => "NumpadMultiply", KeyCode::NumpadParenLeft => "NumpadParenLeft",
            KeyCode::NumpadParenRight => "NumpadParenRight", KeyCode::NumpadStar => "NumpadStar", KeyCode::NumpadSubtract => "NumpadSubtract",
            KeyCode::Escape => "Escape", KeyCode::Fn => "Fn", KeyCode::FnLock => "FnLock",
            KeyCode::PrintScreen => "PrintScreen", KeyCode::ScrollLock => "ScrollLock", KeyCode::Pause => "Pause",
            KeyCode::BrowserBack => "BrowserBack", KeyCode::BrowserFavorites => "BrowserFavorites", KeyCode::BrowserForward => "BrowserForward",
            KeyCode::BrowserHome => "BrowserHome", KeyCode::BrowserRefresh => "BrowserRefresh", KeyCode::BrowserSearch => "BrowserSearch",
            KeyCode::BrowserStop => "BrowserStop", KeyCode::Eject => "Eject", KeyCode::LaunchApp1 => "LaunchApp1",
            KeyCode::LaunchApp2 => "LaunchApp2", KeyCode::LaunchMail => "LaunchMail", KeyCode::MediaPlayPause => "MediaPlayPause",
            KeyCode::MediaSelect => "MediaSelect", KeyCode::MediaStop => "MediaStop", KeyCode::MediaTrackNext => "MediaTrackNext",
            KeyCode::MediaTrackPrevious => "MediaTrackPrevious", KeyCode::Power => "Power", KeyCode::Sleep => "Sleep",
            KeyCode::AudioVolumeDown => "AudioVolumeDown", KeyCode::AudioVolumeMute => "AudioVolumeMute", KeyCode::AudioVolumeUp => "AudioVolumeUp",
            KeyCode::WakeUp => "WakeUp", KeyCode::Hyper => "Hyper", KeyCode::Super => "Super",
            KeyCode::Turbo => "Turbo", KeyCode::Abort => "Abort", KeyCode::Resume => "Resume",
            KeyCode::Suspend => "Suspend", KeyCode::Again => "Again", KeyCode::Copy => "Copy",
            KeyCode::Cut => "Cut", KeyCode::Find => "Find", KeyCode::Open => "Open",
            KeyCode::Paste => "Paste", KeyCode::Props => "Props", KeyCode::Select => "Select",
            KeyCode::Undo => "Undo", KeyCode::Hiragana => "Hiragana", KeyCode::Katakana => "Katakana",
            KeyCode::Unidentified => "Unidentified", KeyCode::F1 => "F1", KeyCode::F2 => "F2",
            KeyCode::F3 => "F3", KeyCode::F4 => "F4", KeyCode::F5 => "F5",
            KeyCode::F6 => "F6", KeyCode::F7 => "F7", KeyCode::F8 => "F8",
            KeyCode::F9 => "F9", KeyCode::F10 => "F10", KeyCode::F11 => "F11",
            KeyCode::F12 => "F12", KeyCode::F13 => "F13", KeyCode::F14 => "F14",
            KeyCode::F15 => "F15", KeyCode::F16 => "F16", KeyCode::F17 => "F17",
            KeyCode::F18 => "F18", KeyCode::F19 => "F19", KeyCode::F20 => "F20",
            KeyCode::F21 => "F21", KeyCode::F22 => "F22", KeyCode::F23 => "F23",
            KeyCode::F24 => "F24", KeyCode::F25 => "F25", KeyCode::F26 => "F26",
            KeyCode::F27 => "F27", KeyCode::F28 => "F28", KeyCode::F29 => "F29",
            KeyCode::F30 => "F30", KeyCode::F31 => "F31", KeyCode::F32 => "F32",
            KeyCode::F33 => "F33", KeyCode::F34 => "F34", KeyCode::F35 => "F35",
            KeyCode::BrightnessDown => "BrightnessDown", KeyCode::BrightnessUp => "BrightnessUp", KeyCode::DisplayToggleIntExt => "DisplayToggleIntExt",
            KeyCode::KeyboardLayoutSelect => "KeyboardLayoutSelect", KeyCode::LaunchAssistant => "LaunchAssistant", KeyCode::LaunchControlPanel => "LaunchControlPanel",
            KeyCode::LaunchScreenSaver => "LaunchScreenSaver", KeyCode::MailForward => "MailForward", KeyCode::MailReply => "MailReply",
            KeyCode::MailSend => "MailSend", KeyCode::MediaFastForward => "MediaFastForward", KeyCode::MediaPause => "MediaPause",
            KeyCode::MediaPlay => "MediaPlay", KeyCode::MediaRecord => "MediaRecord", KeyCode::MediaRewind => "MediaRewind",
            KeyCode::MicrophoneMuteToggle => "MicrophoneMuteToggle", KeyCode::PrivacyScreenToggle => "PrivacyScreenToggle", KeyCode::KeyboardBacklightToggle => "KeyboardBacklightToggle",
            KeyCode::SelectTask => "SelectTask", KeyCode::ShowAllWindows => "ShowAllWindows", KeyCode::ZoomToggle => "ZoomToggle",
        }
    }

    /// The key with number `n` in the hotkey library's key code list, or
    /// `None` when no key has that number.
    pub fn from_number(n: u32) -> (k: Option<KeyCode>)
        ensures
            k == key_of_number(n),
    {
        reveal(key_of_number);
        match n {
            0 => Some(KeyCode::Backquote), 1 => Some(KeyCode::Backslash), 2 => Some(KeyCode::BracketLeft), 3 => Some(KeyCode::BracketRight),
            4 => Some(KeyCode::Comma), 5 => Some(KeyCode::Digit0), 6 => Some(KeyCode::Digit1), 7 => Some(KeyCode::Digit2),
            8 => Some(KeyCode::Digit3), 9 => Some(KeyCode::Digit4), 10 => Some(KeyCode::Digit5), 11 => Some(KeyCode::Digit6),
            12 => Some(KeyCode::Digit7), 13 => Some(KeyCode::Digit8), 14 => Some(KeyCode::Digit9), 15 => Some(KeyCode::Equal),
            16 => Some(KeyCode::IntlBackslash), 17 => Some(KeyCode::IntlRo), 18 => Some(KeyCode::IntlYen), 19 => Some(KeyCode::KeyA),
            20 => Some(KeyCode::KeyB), 21 => Some(KeyCode::KeyC), 22 => Some(KeyCode::KeyD), 23 => Some(KeyCode::KeyE),
            24 => Some(KeyCode::KeyF), 25 => Some(KeyCode::KeyG), 26 => Some(KeyCode::KeyH), 27 => Some(KeyCode::KeyI),
            28 => Some(KeyCode::KeyJ), 29 => Some(KeyCode::KeyK), 30 => Some(KeyCode::KeyL), 31 => Some(KeyCode::KeyM),
            32 => Some(KeyCode::KeyN), 33 => Some(KeyCode::KeyO), 34 => Some(KeyCode::KeyP), 35 => Some(KeyCode::KeyQ),
            36 => Some(KeyCode::KeyR), 37 => Some(KeyCode::KeyS), 38 => Some(KeyCode::KeyT), 39 => Some(KeyCode::KeyU),
            40 => Some(KeyCode::KeyV), 41 => Some(KeyCode::KeyW), 42 => Some(KeyCode::KeyX), 43 => Some(KeyCode::KeyY),
            44 => Some(KeyCode::KeyZ), 45 => Some(KeyCode::Minus), 46 => Some(KeyCode::Period), 47 => Some(KeyCode::Quote),
            48 => Some(KeyCode::Semicolon), 49 => Some(KeyCode::Slash), 50 => Some(KeyCode::AltLeft), 51 => Some(KeyCode::AltRight),
            52 => Some(KeyCode::Backspace), 53 => Some(KeyCode::CapsLock), 54 => Some(KeyCode::ContextMenu), 55 => Some(KeyCode::ControlLeft),
            56 => Some(KeyCode::ControlRight), 57 => Some(KeyCode::Enter), 58 => Some(KeyCode::MetaLeft), 59 => Some(KeyCode::MetaRight),
            60 => Some(KeyCode::ShiftLeft), 61 => Some(KeyCode::ShiftRight), 62 => Some(KeyCode::Space), 63 => Some(KeyCode::Tab),
            64 => Some(KeyCode::Convert), 65 => Some(KeyCode::KanaMode), 66 => Some(KeyCode::Lang1), 67 => Some(KeyCode::Lang2),
            68 => Some(KeyCode::Lang3), 69 => Some(KeyCode::Lang4), 70 => Some(KeyCode::Lang5), 71 => Some(KeyCode::NonConvert),
            72 => Some(KeyCode::Delete), 73 => Some(KeyCode::End), 74 => Some(KeyCode::Help), 75 => Some(KeyCode::Home),
            76 => Some(KeyCode::Insert), 77 => Some(KeyCode::PageDown), 78 => Some(KeyCode::PageUp), 79 => Some(KeyCode::ArrowDown),
            80 => Some(KeyCode::ArrowLeft), 81 => Some(KeyCode::ArrowRight), 82 => Some(KeyCode::ArrowUp), 83 => Some(KeyCode::NumLock),
            84 => Some(KeyCode::Numpad0), 85 => Some(KeyCode::Numpad1), 86 => Some(KeyCode::Numpad2), 87 => Some(KeyCode::Numpad3),
            88 => Some(KeyCode::Numpad4), 89 => Some(KeyCode::Numpad5), 90 => Some(KeyCode::Numpad6), 91 => Some(KeyCode::Numpad7),
            92 => Some(KeyCode::Numpad8), 93 => Some(KeyCode::Numpad9), 94 => Some(KeyCode::NumpadAdd), 95 => Some(KeyCode::NumpadBackspace),
            96 => Some(KeyCode::NumpadClear), 97 => Some(KeyCode::NumpadClearEntry), 98 => Some(KeyCode::NumpadComma), 99 => Some(KeyCode::NumpadDecimal),
            100 => Some(KeyCode::NumpadDivide), 101 => Some(KeyCode::NumpadEnter), 102 => Some(KeyCode::NumpadEqual), 103 => Some(KeyCode::NumpadHash),
            104 => Some(KeyCode::NumpadMemoryAdd), 105 => Some(KeyCode::NumpadMemoryClear), 106 => Some(KeyCode::NumpadMemoryRecall), 107 => Some(KeyCode::NumpadMemoryStore),
            108 => Some(KeyCode::NumpadMemorySubtract), 109 => Some(KeyCode::NumpadMultiply), 110 => Some(KeyCode::NumpadParenLeft), 111 => Some(KeyCode::NumpadParenRight),
            112 => Some(KeyCode::NumpadStar), 113 => Some(KeyCode::NumpadSubtract), 114 => Some(KeyCode::Escape), 115 => Some(KeyCode::Fn),
            116 => Some(KeyCode::FnLock), 117 => Some(KeyCode::PrintScreen), 118 => Some(KeyCode::ScrollLock), 119 => Some(KeyCode::Pause),
            120 => Some(KeyCode::BrowserBack), 121 => Some(KeyCode::BrowserFavorites), 122 => Some(KeyCode::BrowserForward), 123 => Some(KeyCode::BrowserHome),
            124 => Some(KeyCode::BrowserRefresh), 125 => Some(KeyCode::BrowserSearch), 126 => Some(KeyCode::BrowserStop), 127 => Some(KeyCode::Eject),
            128 => Some(KeyCode::LaunchApp1), 129 => Some(KeyCode::LaunchApp2), 130 => Some(KeyCode::LaunchMail), 131 => Some(KeyCode::MediaPlayPause),
            132 => Some(KeyCode::MediaSelect), 133 => Some(KeyCode::MediaStop), 134 => Some(KeyCode::MediaTrackNext), 135 => Some(KeyCode::MediaTrackPrevious),
            136 => Some(KeyCode::Power), 137 => Some(KeyCode::Sleep), 138 => Some(KeyCode::AudioVolumeDown), 139 => Some(KeyCode::AudioVolumeMute),
            140 => Some(KeyCode::AudioVolumeUp), 141 => Some(KeyCode::WakeUp), 142 => Some(KeyCode::Hyper), 143 => Some(KeyCode::Super),
            144 => Some(KeyCode::Turbo), 145 => Some(KeyCode::Abort), 146 => Some(KeyCode::Resume), 147 => Some(KeyCode::Suspend),
            148 => Some(KeyCode::Again), 149 => Some(KeyCode::Copy), 150 => Some(KeyCode::Cut), 151 => Some(KeyCode::Find),
            152 => Some(KeyCode::Open), 153 => Some(KeyCode::Paste), 154 => Some(KeyCode::Props), 155 => Some(KeyCode::Select),
            156 => Some(KeyCode::Undo), 157 => Some(KeyCode::Hiragana), 158 => Some(KeyCode::Katakana), 159 => Some(KeyCode::Unidentified),
            160 => Some(KeyCode::F1), 161 => Some(KeyCode::F2), 162 => Some(KeyCode::F3), 163 => Some(KeyCode::F4),
            164 => Some(KeyCode::F5), 165 => Some(KeyCode::F6), 166 => Some(KeyCode::F7), 167 => Some(KeyCode::F8),
            168 => Some(KeyCode::F9), 169 => Some(KeyCode::F10), 170 => Some(KeyCode::F11), 171 => Some(KeyCode::F12),
            172 => Some(KeyCode::F13), 173 => Some(KeyCode::F14), 174 => Some(KeyCode::F15), 175 => Some(KeyCode::F16),
            176 => Some(KeyCode::F17), 177 => Some(KeyCode::F18), 178 => Some(KeyCode::F19), 179 => Some(KeyCode::F20),
            180 => Some(KeyCode::F21), 181 => Some(KeyCode::F22), 182 => Some(KeyCode::F23), 183 => Some(KeyCode::F24),
            184 => Some(KeyCode::F25), 185 => Some(KeyCode::F26), 186 => Some(KeyCode::F27), 187 => Some(KeyCode::F28),
            188 => Some(KeyCode::F29), 189 => Some(KeyCode::F30), 190 => Some(KeyCode::F31), 191 => Some(KeyCode::F32),
            192 => Some(KeyCode::F33), 193 => Some(KeyCode::F34), 194 => Some(KeyCode::F35), 195 => Some(KeyCode::BrightnessDown),
            196 => Some(KeyCode::BrightnessUp), 197 => Some(KeyCode::DisplayToggleIntExt), 198 => Some(KeyCode::KeyboardLayoutSelect), 199 => Some(KeyCode::LaunchAssistant),
            200 => Some(KeyCode::LaunchControlPanel), 201 => Some(KeyCode::LaunchScreenSaver), 202 => Some(KeyCode::MailForward), 203 => Some(KeyCode::MailReply),
            204 => Some(KeyCode::MailSend), 205 => Some(KeyCode::MediaFastForward), 206 => Some(KeyCode::MediaPause), 207 => Some(KeyCode::MediaPlay),
            208 => Some(KeyCode::MediaRecord), 209 => Some(KeyCode::MediaRewind), 210 => Some(KeyCode::MicrophoneMuteToggle), 211 => Some(KeyCode::PrivacyScreenToggle),
            212 => Some(KeyCode::KeyboardBacklightToggle), 213 => Some(KeyCode::SelectTask), 214 => Some(KeyCode::ShowAllWindows), 215 => Some(KeyCode::ZoomToggle),
            _ => None,
        }
    }
    /// The key with the given name, or `None` when no key has that name.
    pub fn from_name(name: &str) -> (k: Option<KeyCode>)
        ensures
            match k {
                Some(c) => key_name(c) == name@,
                None => forall|c: KeyCode| key_name(c) != name@,
            },
            forall|c: KeyCode| key_name(c) == name@ ==> k == Some(c),
    {
        let wanted = String::from_str(name);
        let mut n: u32 = 0;
        while n < KEY_CODE_COUNT
            invariant
                n <= KEY_CODE_COUNT,
                wanted@ == name@,
                forall|m: u32| m < n ==> match #[trigger] key_of_number(m) {
                    Some(c) => key_name(c) != name@,
                    None => true,
                },
            decreases KEY_CODE_COUNT - n,
        {
            match KeyCode::from_number(n) {
                Some(c) => {
                    if String::from_str(c.name()) == wanted {
                        proof {
                            assert forall|c2: KeyCode| key_name(c2) == name@ implies Some(c) == Some(c2) by {
                                lemma_key_name_injective(c, c2);
                            }
                        }
                        return Some(c);
                    }
                },
                None => {},
            }
            n = n + 1;
        }
        assert forall|c: KeyCode| key_name(c) != name@ by {
            lemma_key_number_roundtrip(c);
            assert(key_of_number(key_number(c)) == Some(c));
        }
        None
    }
}

/// The id of the hotkey made of a modifier and a key: the modifier bits
/// shifted sixteen places up, or-ed with the key's number.
pub open spec fn spec_hotkey_id(m: HotkeyModifier, k: KeyCode) -> u32 {
    (modifier_bits(m) << 16u32) | key_number(k)
}

/// The id under which a hotkey made of `modifier` and `key` is reported when pressed.
pub fn hotkey_id(modifier: HotkeyModifier, key: KeyCode) -> (id: u32)
    ensures
        id == spec_hotkey_id(modifier, key),
{
    let bits: u32 = match modifier.to_global_modifiers() {
        Some(b) => b,
        Option::None => 0,
    };
    (bits << 16u32) | key.number()
}

/// The hotkey id spelled out in arithmetic: the modifier bits times 65536
/// plus the key's number.
pub proof fn lemma_hotkey_id_arith(m: HotkeyModifier, k: KeyCode)
    ensures
        spec_hotkey_id(m, k) == modifier_bits(m) * 65536 + key_number(k),
        key_number(k) < 65536,
{
    let b = modifier_bits(m);
    let n = key_number(k);
    assert(b <= 0x200u32 && n < 256u32);
    assert(b <= 0x200u32 && n < 256u32 ==> (b << 16u32) | n == b * 65536 + n) by (bit_vector);
}

} // verus!
