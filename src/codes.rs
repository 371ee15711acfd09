//! The input events that travel from the capture side to the injection side,
//! and the tables that map keys and buttons to the codes each backend wants.
use vstd::prelude::*;

verus! {

/// A physical key, named by its place on a US keyboard. This is the set of
/// keys that the capture side can forward; a key outside it is unmapped.
#[derive(Clone, Copy, Debug, PartialEq, Eq, Hash, Structural)]
pub enum KeyCode {
    Backquote,
    Backslash,
    BracketLeft,
    BracketRight,
    Comma,
    Digit0,
    Digit1,
    Digit2,
    Digit3,
    Digit4,
    Digit5,
    Digit6,
    Digit7,
    Digit8,
    Digit9,
    Equal,
    KeyA,
    KeyB,
    KeyC,
    KeyD,
    KeyE,
    KeyF,
    KeyG,
    KeyH,
    KeyI,
    KeyJ,
    KeyK,
    KeyL,
    KeyM,
    KeyN,
    KeyO,
    KeyP,
    KeyQ,
    KeyR,
    KeyS,
    KeyT,
    KeyU,
    KeyV,
    KeyW,
    KeyX,
    KeyY,
    KeyZ,
    Minus,
    Period,
    Quote,
    Semicolon,
    Slash,
    AltLeft,
    AltRight,
    Backspace,
    CapsLock,
    ControlLeft,
    ControlRight,
    Enter,
    SuperLeft,
    SuperRight,
    ShiftLeft,
    ShiftRight,
    Space,
    Tab,
    Delete,
    End,
    Home,
    Insert,
    PageDown,
    PageUp,
    ArrowDown,
    ArrowLeft,
    ArrowRight,
    ArrowUp,
    NumLock,
    Numpad0,
    Numpad1,
    Numpad2,
    Numpad3,
    Numpad4,
    Numpad5,
    Numpad6,
    Numpad7,
    Numpad8,
    Numpad9,
    NumpadAdd,
    NumpadBackspace,
    NumpadClear,
    NumpadClearEntry,
    NumpadComma,
    NumpadDecimal,
    NumpadDivide,
    NumpadMultiply,
    NumpadSubtract,
    Escape,
    PrintScreen,
    ScrollLock,
    Pause,
    AudioVolumeDown,
    AudioVolumeMute,
    AudioVolumeUp,
    F1,
    F2,
    F3,
    F4,
    F5,
    F6,
    F7,
    F8,
    F9,
    F10,
    F11,
    F12,
    F13,
    F14,
    F15,
    F16,
    F17,
    F18,
    F19,
    F20,
    F21,
    F22,
    F23,
    F24,
    Help,
    ContextMenu,
    Meta,
    KanaMode,
    Convert,
    NonConvert,
    MediaTrackNext,
    MediaPlayPause,
    MediaTrackPrevious,
    MediaSelect,
    MediaStop,
    BrowserBack,
    BrowserFavorites,
    BrowserForward,
    BrowserHome,
    BrowserRefresh,
    BrowserSearch,
    BrowserStop,
    LaunchApp1,
    LaunchApp2,
    LaunchMail,
    Sleep,
}

/// The identifier of each key on the wire.
pub open spec fn key_id(k: KeyCode) -> u8 {
    match k {
        KeyCode::Backquote => 0,
        KeyCode::Backslash => 1,
        KeyCode::BracketLeft => 2,
        KeyCode::BracketRight => 3,
        KeyCode::Comma => 4,
        KeyCode::Digit0 => 5,
        KeyCode::Digit1 => 6,
        KeyCode::Digit2 => 7,
        KeyCode::Digit3 => 8,
        KeyCode::Digit4 => 9,
        KeyCode::Digit5 => 10,
        KeyCode::Digit6 => 11,
        KeyCode::Digit7 => 12,
        KeyCode::Digit8 => 13,
        KeyCode::Digit9 => 14,
        KeyCode::Equal => 15,
        KeyCode::KeyA => 16,
        KeyCode::KeyB => 17,
        KeyCode::KeyC => 18,
        KeyCode::KeyD => 19,
        KeyCode::KeyE => 20,
        KeyCode::KeyF => 21,
        KeyCode::KeyG => 22,
        KeyCode::KeyH => 23,
        KeyCode::KeyI => 24,
        KeyCode::KeyJ => 25,
        KeyCode::KeyK => 26,
        KeyCode::KeyL => 27,
        KeyCode::KeyM => 28,
        KeyCode::KeyN => 29,
        KeyCode::KeyO => 30,
        KeyCode::KeyP => 31,
        KeyCode::KeyQ => 32,
        KeyCode::KeyR => 33,
        KeyCode::KeyS => 34,
        KeyCode::KeyT => 35,
        KeyCode::KeyU => 36,
        KeyCode::KeyV => 37,
        KeyCode::KeyW => 38,
        KeyCode::KeyX => 39,
        KeyCode::KeyY => 40,
        KeyCode::KeyZ => 41,
        KeyCode::Minus => 42,
        KeyCode::Period => 43,
        KeyCode::Quote => 44,
        KeyCode::Semicolon => 45,
        KeyCode::Slash => 46,
        KeyCode::AltLeft => 47,
        KeyCode::AltRight => 48,
        KeyCode::Backspace => 49,
        KeyCode::CapsLock => 50,
        KeyCode::ControlLeft => 51,
        KeyCode::ControlRight => 52,
        KeyCode::Enter => 53,
        KeyCode::SuperLeft => 54,
        KeyCode::SuperRight => 55,
        KeyCode::ShiftLeft => 56,
        KeyCode::ShiftRight => 57,
        KeyCode::Space => 58,
        KeyCode::Tab => 59,
        KeyCode::Delete => 60,
        KeyCode::End => 61,
        KeyCode::Home => 62,
        KeyCode::Insert => 63,
        KeyCode::PageDown => 64,
        KeyCode::PageUp => 65,
        KeyCode::ArrowDown => 66,
        KeyCode::ArrowLeft => 67,
        KeyCode::ArrowRight => 68,
        KeyCode::ArrowUp => 69,
        KeyCode::NumLock => 70,
        KeyCode::Numpad0 => 71,
        KeyCode::Numpad1 => 72,
        KeyCode::Numpad2 => 73,
        KeyCode::Numpad3 => 74,
        KeyCode::Numpad4 => 75,
        KeyCode::Numpad5 => 76,
        KeyCode::Numpad6 => 77,
        KeyCode::Numpad7 => 78,
        KeyCode::Numpad8 => 79,
        KeyCode::Numpad9 => 80,
        KeyCode::NumpadAdd => 81,
        KeyCode::NumpadBackspace => 82,
        KeyCode::NumpadClear => 83,
        KeyCode::NumpadClearEntry => 84,
        KeyCode::NumpadComma => 85,
        KeyCode::NumpadDecimal => 86,
        KeyCode::NumpadDivide => 87,
        KeyCode::NumpadMultiply => 88,
        KeyCode::NumpadSubtract => 89,
        KeyCode::Escape => 90,
        KeyCode::PrintScreen => 91,
        KeyCode::ScrollLock => 92,
        KeyCode::Pause => 93,
        KeyCode::AudioVolumeDown => 94,
        KeyCode::AudioVolumeMute => 95,
        KeyCode::AudioVolumeUp => 96,
        KeyCode::F1 => 97,
        KeyCode::F2 => 98,
        KeyCode::F3 => 99,
        KeyCode::F4 => 100,
        KeyCode::F5 => 101,
        KeyCode::F6 => 102,
        KeyCode::F7 => 103,
        KeyCode::F8 => 104,
        KeyCode::F9 => 105,
        KeyCode::F10 => 106,
        KeyCode::F11 => 107,
        KeyCode::F12 => 108,
        KeyCode::F13 => 109,
        KeyCode::F14 => 110,
        KeyCode::F15 => 111,
        KeyCode::F16 => 112,
        KeyCode::F17 => 113,
        KeyCode::F18 => 114,
        KeyCode::F19 => 115,
        KeyCode::F20 => 116,
        KeyCode::F21 => 117,
        KeyCode::F22 => 118,
        KeyCode::F23 => 119,
        KeyCode::F24 => 120,
        KeyCode::Help => 121,
        KeyCode::ContextMenu => 122,
        KeyCode::Meta => 123,
        KeyCode::KanaMode => 124,
        KeyCode::Convert => 125,
        KeyCode::NonConvert => 126,
        KeyCode::MediaTrackNext => 127,
        KeyCode::MediaPlayPause => 128,
        KeyCode::MediaTrackPrevious => 129,
        KeyCode::MediaSelect => 130,
        KeyCode::MediaStop => 131,
        KeyCode::BrowserBack => 132,
        KeyCode::BrowserFavorites => 133,
        KeyCode::BrowserForward => 134,
        KeyCode::BrowserHome => 135,
        KeyCode::BrowserRefresh => 136,
        KeyCode::BrowserSearch => 137,
        KeyCode::BrowserStop => 138,
        KeyCode::LaunchApp1 => 139,
        KeyCode::LaunchApp2 => 140,
        KeyCode::LaunchMail => 141,
        KeyCode::Sleep => 142,
    }
}

/// The key with a given wire identifier, if there is one.
pub open spec fn key_of_id(id: u8) -> Option<KeyCode> {
    match id {
        0 => Some(KeyCode::Backquote),
        1 => Some(KeyCode::Backslash),
        2 => Some(KeyCode::BracketLeft),
        3 => Some(KeyCode::BracketRight),
        4 => Some(KeyCode::Comma),
        5 => Some(KeyCode::Digit0),
        6 => Some(KeyCode::Digit1),
        7 => Some(KeyCode::Digit2),
        8 => Some(KeyCode::Digit3),
        9 => Some(KeyCode::Digit4),
        10 => Some(KeyCode::Digit5),
        11 => Some(KeyCode::Digit6),
        12 => Some(KeyCode::Digit7),
        13 => Some(KeyCode::Digit8),
        14 => Some(KeyCode::Digit9),
        15 => Some(KeyCode::Equal),
        16 => Some(KeyCode::KeyA),
        17 => Some(KeyCode::KeyB),
        18 => Some(KeyCode::KeyC),
        19 => Some(KeyCode::KeyD),
        20 => Some(KeyCode::KeyE),
        21 => Some(KeyCode::KeyF),
        22 => Some(KeyCode::KeyG),
        23 => Some(KeyCode::KeyH),
        24 => Some(KeyCode::KeyI),
        25 => Some(KeyCode::KeyJ),
        26 => Some(KeyCode::KeyK),
        27 => Some(KeyCode::KeyL),
        28 => Some(KeyCode::KeyM),
        29 => Some(KeyCode::KeyN),
        30 => Some(KeyCode::KeyO),
        31 => Some(KeyCode::KeyP),
        32 => Some(KeyCode::KeyQ),
        33 => Some(KeyCode::KeyR),
        34 => Some(KeyCode::KeyS),
        35 => Some(KeyCode::KeyT),
        36 => Some(KeyCode::KeyU),
        37 => Some(KeyCode::KeyV),
        38 => Some(KeyCode::KeyW),
        39 => Some(KeyCode::KeyX),
        40 => Some(KeyCode::KeyY),
        41 => Some(KeyCode::KeyZ),
        42 => Some(KeyCode::Minus),
        43 => Some(KeyCode::Period),
        44 => Some(KeyCode::Quote),
        45 => Some(KeyCode::Semicolon),
        46 => Some(KeyCode::Slash),
        47 => Some(KeyCode::AltLeft),
        48 => Some(KeyCode::AltRight),
        49 => Some(KeyCode::Backspace),
        50 => Some(KeyCode::CapsLock),
        51 => Some(KeyCode::ControlLeft),
        52 => Some(KeyCode::ControlRight),
        53 => Some(KeyCode::Enter),
        54 => Some(KeyCode::SuperLeft),
        55 => Some(KeyCode::SuperRight),
        56 => Some(KeyCode::ShiftLeft),
        57 => Some(KeyCode::ShiftRight),
        58 => Some(KeyCode::Space),
        59 => Some(KeyCode::Tab),
        60 => Some(KeyCode::Delete),
        61 => Some(KeyCode::End),
        62 => Some(KeyCode::Home),
        63 => Some(KeyCode::Insert),
        64 => Some(KeyCode::PageDown),
        65 => Some(KeyCode::PageUp),
        66 => Some(KeyCode::ArrowDown),
        67 => Some(KeyCode::ArrowLeft),
        68 => Some(KeyCode::ArrowRight),
        69 => Some(KeyCode::ArrowUp),
        70 => Some(KeyCode::NumLock),
        71 => Some(KeyCode::Numpad0),
        72 => Some(KeyCode::Numpad1),
        73 => Some(KeyCode::Numpad2),
        74 => Some(KeyCode::Numpad3),
        75 => Some(KeyCode::Numpad4),
        76 => Some(KeyCode::Numpad5),
        77 => Some(KeyCode::Numpad6),
        78 => Some(KeyCode::Numpad7),
        79 => Some(KeyCode::Numpad8),
        80 => Some(KeyCode::Numpad9),
        81 => Some(KeyCode::NumpadAdd),
        82 => Some(KeyCode::NumpadBackspace),
        83 => Some(KeyCode::NumpadClear),
        84 => Some(KeyCode::NumpadClearEntry),
        85 => Some(KeyCode::NumpadComma),
        86 => Some(KeyCode::NumpadDecimal),
        87 => Some(KeyCode::NumpadDivide),
        88 => Some(KeyCode::NumpadMultiply),
        89 => Some(KeyCode::NumpadSubtract),
        90 => Some(KeyCode::Escape),
        91 => Some(KeyCode::PrintScreen),
        92 => Some(KeyCode::ScrollLock),
        93 => Some(KeyCode::Pause),
        94 => Some(KeyCode::AudioVolumeDown),
        95 => Some(KeyCode::AudioVolumeMute),
        96 => Some(KeyCode::AudioVolumeUp),
        97 => Some(KeyCode::F1),
        98 => Some(KeyCode::F2),
        99 => Some(KeyCode::F3),
        100 => Some(KeyCode::F4),
        101 => Some(KeyCode::F5),
        102 => Some(KeyCode::F6),
        103 => Some(KeyCode::F7),
        104 => Some(KeyCode::F8),
        105 => Some(KeyCode::F9),
        106 => Some(KeyCode::F10),
        107 => Some(KeyCode::F11),
        108 => Some(KeyCode::F12),
        109 => Some(KeyCode::F13),
        110 => Some(KeyCode::F14),
        111 => Some(KeyCode::F15),
        112 => Some(KeyCode::F16),
        113 => Some(KeyCode::F17),
        114 => Some(KeyCode::F18),
        115 => Some(KeyCode::F19),
        116 => Some(KeyCode::F20),
        117 => Some(KeyCode::F21),
        118 => Some(KeyCode::F22),
        119 => Some(KeyCode::F23),
        120 => Some(KeyCode::F24),
        121 => Some(KeyCode::Help),
        122 => Some(KeyCode::ContextMenu),
        123 => Some(KeyCode::Meta),
        124 => Some(KeyCode::KanaMode),
        125 => Some(KeyCode::Convert),
        126 => Some(KeyCode::NonConvert),
        127 => Some(KeyCode::MediaTrackNext),
        128 => Some(KeyCode::MediaPlayPause),
        129 => Some(KeyCode::MediaTrackPrevious),
        130 => Some(KeyCode::MediaSelect),
        131 => Some(KeyCode::MediaStop),
        132 => Some(KeyCode::BrowserBack),
        133 => Some(KeyCode::BrowserFavorites),
        134 => Some(KeyCode::BrowserForward),
        135 => Some(KeyCode::BrowserHome),
        136 => Some(KeyCode::BrowserRefresh),
        137 => Some(KeyCode::BrowserSearch),
        138 => Some(KeyCode::BrowserStop),
        139 => Some(KeyCode::LaunchApp1),
        140 => Some(KeyCode::LaunchApp2),
        141 => Some(KeyCode::LaunchMail),
        142 => Some(KeyCode::Sleep),
        _ => None,
    }
}

/// The USB HID usage (keyboard page) that a keyboard reports for each key,
/// where the keyboard page has one.
pub open spec fn hid_usage(k: KeyCode) -> Option<u8> {
    match k {
        KeyCode::Backquote => Some(0x35),
        KeyCode::Backslash => Some(0x31),
        KeyCode::BracketLeft => Some(0x2F),
        KeyCode::BracketRight => Some(0x30),
        KeyCode::Comma => Some(0x36),
        KeyCode::Digit0 => Some(0x27),
        KeyCode::Digit1 => Some(0x1E),
        KeyCode::Digit2 => Some(0x1F),
        KeyCode::Digit3 => Some(0x20),
        KeyCode::Digit4 => Some(0x21),
        KeyCode::Digit5 => Some(0x22),
        KeyCode::Digit6 => Some(0x23),
        KeyCode::Digit7 => Some(0x24),
        KeyCode::Digit8 => Some(0x25),
        KeyCode::Digit9 => Some(0x26),
        KeyCode::Equal => Some(0x2E),
        KeyCode::KeyA => Some(0x04),
        KeyCode::KeyB => Some(0x05),
        KeyCode::KeyC => Some(0x06),
        KeyCode::KeyD => Some(0x07),
        KeyCode::KeyE => Some(0x08),
        KeyCode::KeyF => Some(0x09),
        KeyCode::KeyG => Some(0x0A),
        KeyCode::KeyH => Some(0x0B),
        KeyCode::KeyI => Some(0x0C),
        KeyCode::KeyJ => Some(0x0D),
        KeyCode::KeyK => Some(0x0E),
        KeyCode::KeyL => Some(0x0F),
        KeyCode::KeyM => Some(0x10),
        KeyCode::KeyN => Some(0x11),
        KeyCode::KeyO => Some(0x12),
        KeyCode::KeyP => Some(0x13),
        KeyCode::KeyQ => Some(0x14),
        KeyCode::KeyR => Some(0x15),
        KeyCode::KeyS => Some(0x16),
        KeyCode::KeyT => Some(0x17),
        KeyCode::KeyU => Some(0x18),
        KeyCode::KeyV => Some(0x19),
        KeyCode::KeyW => Some(0x1A),
        KeyCode::KeyX => Some(0x1B),
        KeyCode::KeyY => Some(0x1C),
        KeyCode::KeyZ => Some(0x1D),
        KeyCode::Minus => Some(0x2D),
        KeyCode::Period => Some(0x37),
        KeyCode::Quote => Some(0x34),
        KeyCode::Semicolon => Some(0x33),
        KeyCode::Slash => Some(0x38),
        KeyCode::AltLeft => Some(0xE2),
        KeyCode::AltRight => Some(0xE3),
        KeyCode::Backspace => Some(0x2A),
        KeyCode::CapsLock => Some(0x39),
        KeyCode::ControlLeft => Some(0xE0),
        KeyCode::ControlRight => Some(0xE4),
        KeyCode::Enter => Some(0x28),
        KeyCode::SuperLeft => Some(0xE3),
        KeyCode::SuperRight => Some(0xE7),
        KeyCode::ShiftLeft => Some(0xE1),
        KeyCode::ShiftRight => Some(0xE5),
        KeyCode::Space => Some(0x2C),
        KeyCode::Tab => Some(0x2B),
        KeyCode::Delete => Some(0x4C),
        KeyCode::End => Some(0x4D),
        KeyCode::Home => Some(0x4A),
        KeyCode::Insert => Some(0x49),
        KeyCode::PageDown => Some(0x4E),
        KeyCode::PageUp => Some(0x4B),
        KeyCode::ArrowDown => Some(0x51),
        KeyCode::ArrowLeft => Some(0x50),
        KeyCode::ArrowRight => Some(0x4F),
        KeyCode::ArrowUp => Some(0x52),
        KeyCode::NumLock => Some(0x53),
        KeyCode::Numpad0 => Some(0x62),
        KeyCode::Numpad1 => Some(0x59),
        KeyCode::Numpad2 => Some(0x5A),
        KeyCode::Numpad3 => Some(0x5B),
        KeyCode::Numpad4 => Some(0x5C),
        KeyCode::Numpad5 => Some(0x5D),
        KeyCode::Numpad6 => Some(0x5E),
        KeyCode::Numpad7 => Some(0x5F),
        KeyCode::Numpad8 => Some(0x60),
        KeyCode::Numpad9 => Some(0x61),
        KeyCode::NumpadAdd => Some(0xD3),
        KeyCode::NumpadBackspace => Some(0xBB),
        KeyCode::NumpadClear => Some(0xD8),
        KeyCode::NumpadClearEntry => Some(0xD9),
        KeyCode::NumpadComma => Some(0x85),
        KeyCode::NumpadDecimal => Some(0x63),
        KeyCode::NumpadDivide => Some(0x54),
        KeyCode::NumpadMultiply => Some(0x55),
        KeyCode::NumpadSubtract => Some(0x56),
        KeyCode::Escape => Some(0x29),
        KeyCode::PrintScreen => Some(0x46),
        KeyCode::ScrollLock => Some(0x47),
        KeyCode::Pause => Some(0x48),
        KeyCode::AudioVolumeDown => Some(0x81),
        KeyCode::AudioVolumeMute => Some(0x7F),
        KeyCode::AudioVolumeUp => Some(0x80),
        KeyCode::F1 => Some(0x3A),
        KeyCode::F2 => Some(0x3B),
        KeyCode::F3 => Some(0x3C),
        KeyCode::F4 => Some(0x3D),
        KeyCode::F5 => Some(0x3E),
        KeyCode::F6 => Some(0x3F),
        KeyCode::F7 => Some(0x40),
        KeyCode::F8 => Some(0x41),
        KeyCode::F9 => Some(0x42),
        KeyCode::F10 => Some(0x43),
        KeyCode::F11 => Some(0x44),
        KeyCode::F12 => Some(0x45),
        KeyCode::F13 => Some(0x68),
        KeyCode::F14 => Some(0x69),
        KeyCode::F15 => Some(0x6A),
        KeyCode::F16 => Some(0x6B),
        KeyCode::F17 => Some(0x6C),
        KeyCode::F18 => Some(0x6D),
        KeyCode::F19 => Some(0x6E),
        KeyCode::F20 => Some(0x6F),
        KeyCode::F21 => Some(0x70),
        KeyCode::F22 => Some(0x71),
        KeyCode::F23 => Some(0x72),
        KeyCode::F24 => Some(0x73),
        KeyCode::Help => Some(0x75),
        KeyCode::ContextMenu => Some(0x65),
        KeyCode::Meta => Some(0xE3),
        KeyCode::KanaMode => Some(0x88),
        KeyCode::Convert => Some(0x8A),
        KeyCode::NonConvert => Some(0x8B),
        _ => None,
    }
}

/// The Windows virtual-key code of each key that the injection backend knows.
pub open spec fn virtual_key(k: KeyCode) -> Option<u8> {
    match k {
        KeyCode::Backquote => Some(0xC0),
        KeyCode::Backslash => Some(0xDC),
        KeyCode::BracketLeft => Some(0xDB),
        KeyCode::BracketRight => Some(0xDD),
        KeyCode::Comma => Some(0xBC),
        KeyCode::Digit0 => Some(0x30),
        KeyCode::Digit1 => Some(0x31),
        KeyCode::Digit2 => Some(0x32),
        KeyCode::Digit3 => Some(0x33),
        KeyCode::Digit4 => Some(0x34),
        KeyCode::Digit5 => Some(0x35),
        KeyCode::Digit6 => Some(0x36),
        KeyCode::Digit7 => Some(0x37),
        KeyCode::Digit8 => Some(0x38),
        KeyCode::Digit9 => Some(0x39),
        KeyCode::Equal => Some(0xBB),
        KeyCode::KeyA => Some(0x41),
        KeyCode::KeyB => Some(0x42),
        KeyCode::KeyC => Some(0x43),
        KeyCode::KeyD => Some(0x44),
        KeyCode::KeyE => Some(0x45),
        KeyCode::KeyF => Some(0x46),
        KeyCode::KeyG => Some(0x47),
        KeyCode::KeyH => Some(0x48),
        KeyCode::KeyI => Some(0x49),
        KeyCode::KeyJ => Some(0x4A),
        KeyCode::KeyK => Some(0x4B),
        KeyCode::KeyL => Some(0x4C),
        KeyCode::KeyM => Some(0x4D),
        KeyCode::KeyN => Some(0x4E),
        KeyCode::KeyO => Some(0x4F),
        KeyCode::KeyP => Some(0x50),
        KeyCode::KeyQ => Some(0x51),
        KeyCode::KeyR => Some(0x52),
        KeyCode::KeyS => Some(0x53),
        KeyCode::KeyT => Some(0x54),
        KeyCode::KeyU => Some(0x55),
        KeyCode::KeyV => Some(0x56),
        KeyCode::KeyW => Some(0x57),
        KeyCode::KeyX => Some(0x58),
        KeyCode::KeyY => Some(0x59),
        KeyCode::KeyZ => Some(0x5A),
        KeyCode::Minus => Some(0xBD),
        KeyCode::Period => Some(0xBE),
        KeyCode::Quote => Some(0xDE),
        KeyCode::Semicolon => Some(0xBA),
        KeyCode::Slash => Some(0xBF),
        KeyCode::AltLeft => Some(0x12),
        KeyCode::AltRight => Some(0x5B),
        KeyCode::Backspace => Some(0x08),
        KeyCode::CapsLock => Some(0x14),
        KeyCode::ControlLeft => Some(0x11),
        KeyCode::ControlRight => Some(0x11),
        KeyCode::Enter => Some(0x0D),
        KeyCode::ShiftLeft => Some(0xA0),
        KeyCode::ShiftRight => Some(0xA1),
        KeyCode::Space => Some(0x20),
        KeyCode::Tab => Some(0x09),
        KeyCode::Delete => Some(0x2E),
        KeyCode::End => Some(0x23),
        KeyCode::Home => Some(0x24),
        KeyCode::Insert => Some(0x2D),
        KeyCode::PageDown => Some(0x22),
        KeyCode::PageUp => Some(0x21),
        KeyCode::ArrowDown => Some(0x28),
        KeyCode::ArrowLeft => Some(0x25),
        KeyCode::ArrowRight => Some(0x27),
        KeyCode::ArrowUp => Some(0x26),
        KeyCode::NumLock => Some(0x90),
        KeyCode::Numpad0 => Some(0x60),
        KeyCode::Numpad1 => Some(0x61),
        KeyCode::Numpad2 => Some(0x62),
        KeyCode::Numpad3 => Some(0x63),
        KeyCode::Numpad4 => Some(0x64),
        KeyCode::Numpad5 => Some(0x65),
        KeyCode::Numpad6 => Some(0x66),
        KeyCode::Numpad7 => Some(0x67),
        KeyCode::Numpad8 => Some(0x68),
        KeyCode::Numpad9 => Some(0x69),
        KeyCode::NumpadAdd => Some(0x6B),
        KeyCode::NumpadDecimal => Some(0x6E),
        KeyCode::NumpadDivide => Some(0x6F),
        KeyCode::NumpadMultiply => Some(0x6A),
        KeyCode::NumpadSubtract => Some(0x6D),
        KeyCode::Escape => Some(0x1B),
        KeyCode::PrintScreen => Some(0x2C),
        KeyCode::Pause => Some(0x13),
        KeyCode::AudioVolumeDown => Some(0xAE),
        KeyCode::AudioVolumeMute => Some(0xAD),
        KeyCode::AudioVolumeUp => Some(0xAF),
        KeyCode::F1 => Some(0x70),
        KeyCode::F2 => Some(0x71),
        KeyCode::F3 => Some(0x72),
        KeyCode::F4 => Some(0x73),
        KeyCode::F5 => Some(0x74),
        KeyCode::F6 => Some(0x75),
        KeyCode::F7 => Some(0x76),
        KeyCode::F8 => Some(0x77),
        KeyCode::F9 => Some(0x78),
        KeyCode::F10 => Some(0x79),
        KeyCode::F11 => Some(0x7A),
        KeyCode::F12 => Some(0x7B),
        KeyCode::F13 => Some(0x7C),
        KeyCode::F14 => Some(0x7D),
        KeyCode::F15 => Some(0x7E),
        KeyCode::F16 => Some(0x7F),
        KeyCode::F17 => Some(0x80),
        KeyCode::F18 => Some(0x81),
        KeyCode::F19 => Some(0x82),
        KeyCode::F20 => Some(0x83),
        KeyCode::F21 => Some(0x84),
        KeyCode::F22 => Some(0x85),
        KeyCode::F23 => Some(0x86),
        KeyCode::F24 => Some(0x87),
        KeyCode::Help => Some(0x2F),
        KeyCode::ContextMenu => Some(0x5D),
        KeyCode::Meta => Some(0x5B),
        KeyCode::KanaMode => Some(0x15),
        KeyCode::Convert => Some(0x1C),
        KeyCode::NonConvert => Some(0x1D),
        KeyCode::MediaTrackNext => Some(0xB0),
        KeyCode::MediaPlayPause => Some(0xB3),
        KeyCode::MediaTrackPrevious => Some(0xB1),
        KeyCode::MediaSelect => Some(0xB5),
        KeyCode::MediaStop => Some(0xB2),
        KeyCode::BrowserBack => Some(0xA6),
        KeyCode::BrowserFavorites => Some(0xAB),
        KeyCode::BrowserForward => Some(0xA7),
        KeyCode::BrowserHome => Some(0xAC),
        KeyCode::BrowserRefresh => Some(0xA8),
        KeyCode::BrowserSearch => Some(0xAA),
        KeyCode::BrowserStop => Some(0xA9),
        KeyCode::LaunchApp1 => Some(0xB6),
        KeyCode::LaunchApp2 => Some(0xB7),
        KeyCode::LaunchMail => Some(0xB4),
        KeyCode::Sleep => Some(0x5F),
        _ => None,
    }
}

impl KeyCode {
    /// The identifier of this key on the wire.
    pub fn id(&self) -> (r: u8)
        ensures
            r == key_id(*self),
    {
        match self {
            KeyCode::Backquote => 0,
            KeyCode::Backslash => 1,
            KeyCode::BracketLeft => 2,
            KeyCode::BracketRight => 3,
            KeyCode::Comma => 4,
            KeyCode::Digit0 => 5,
            KeyCode::Digit1 => 6,
            KeyCode::Digit2 => 7,
            KeyCode::Digit3 => 8,
            KeyCode::Digit4 => 9,
            KeyCode::Digit5 => 10,
            KeyCode::Digit6 => 11,
            KeyCode::Digit7 => 12,
            KeyCode::Digit8 => 13,
            KeyCode::Digit9 => 14,
            KeyCode::Equal => 15,
            KeyCode::KeyA => 16,
            KeyCode::KeyB => 17,
            KeyCode::KeyC => 18,
            KeyCode::KeyD => 19,
            KeyCode::KeyE => 20,
            KeyCode::KeyF => 21,
            KeyCode::KeyG => 22,
            KeyCode::KeyH => 23,
            KeyCode::KeyI => 24,
            KeyCode::KeyJ => 25,
            KeyCode::KeyK => 26,
            KeyCode::KeyL => 27,
            KeyCode::KeyM => 28,
            KeyCode::KeyN => 29,
            KeyCode::KeyO => 30,
            KeyCode::KeyP => 31,
            KeyCode::KeyQ => 32,
            KeyCode::KeyR => 33,
            KeyCode::KeyS => 34,
            KeyCode::KeyT => 35,
            KeyCode::KeyU => 36,
            KeyCode::KeyV => 37,
            KeyCode::KeyW => 38,
            KeyCode::KeyX => 39,
            KeyCode::KeyY => 40,
            KeyCode::KeyZ => 41,
            KeyCode::Minus => 42,
            KeyCode::Period => 43,
            KeyCode::Quote => 44,
            KeyCode::Semicolon => 45,
            KeyCode::Slash => 46,
            KeyCode::AltLeft => 47,
            KeyCode::AltRight => 48,
            KeyCode::Backspace => 49,
            KeyCode::CapsLock => 50,
            KeyCode::ControlLeft => 51,
            KeyCode::ControlRight => 52,
            KeyCode::Enter => 53,
            KeyCode::SuperLeft => 54,
            KeyCode::SuperRight => 55,
            KeyCode::ShiftLeft => 56,
            KeyCode::ShiftRight => 57,
            KeyCode::Space => 58,
            KeyCode::Tab => 59,
            KeyCode::Delete => 60,
            KeyCode::End => 61,
            KeyCode::Home => 62,
            KeyCode::Insert => 63,
            KeyCode::PageDown => 64,
            KeyCode::PageUp => 65,
            KeyCode::ArrowDown => 66,
            KeyCode::ArrowLeft => 67,
            KeyCode::ArrowRight => 68,
            KeyCode::ArrowUp => 69,
            KeyCode::NumLock => 70,
            KeyCode::Numpad0 => 71,
            KeyCode::Numpad1 => 72,
            KeyCode::Numpad2 => 73,
            KeyCode::Numpad3 => 74,
            KeyCode::Numpad4 => 75,
            KeyCode::Numpad5 => 76,
            KeyCode::Numpad6 => 77,
            KeyCode::Numpad7 => 78,
            KeyCode::Numpad8 => 79,
            KeyCode::Numpad9 => 80,
            KeyCode::NumpadAdd => 81,
            KeyCode::NumpadBackspace => 82,
            KeyCode::NumpadClear => 83,
            KeyCode::NumpadClearEntry => 84,
            KeyCode::NumpadComma => 85,
            KeyCode::NumpadDecimal => 86,
            KeyCode::NumpadDivide => 87,
            KeyCode::NumpadMultiply => 88,
            KeyCode::NumpadSubtract => 89,
            KeyCode::Escape => 90,
            KeyCode::PrintScreen => 91,
            KeyCode::ScrollLock => 92,
            KeyCode::Pause => 93,
            KeyCode::AudioVolumeDown => 94,
            KeyCode::AudioVolumeMute => 95,
            KeyCode::AudioVolumeUp => 96,
            KeyCode::F1 => 97,
            KeyCode::F2 => 98,
            KeyCode::F3 => 99,
            KeyCode::F4 => 100,
            KeyCode::F5 => 101,
            KeyCode::F6 => 102,
            KeyCode::F7 => 103,
            KeyCode::F8 => 104,
            KeyCode::F9 => 105,
            KeyCode::F10 => 106,
            KeyCode::F11 => 107,
            KeyCode::F12 => 108,
            KeyCode::F13 => 109,
            KeyCode::F14 => 110,
            KeyCode::F15 => 111,
            KeyCode::F16 => 112,
            KeyCode::F17 => 113,
            KeyCode::F18 => 114,
            KeyCode::F19 => 115,
            KeyCode::F20 => 116,
            KeyCode::F21 => 117,
            KeyCode::F22 => 118,
            KeyCode::F23 => 119,
            KeyCode::F24 => 120,
            KeyCode::Help => 121,
            KeyCode::ContextMenu => 122,
            KeyCode::Meta => 123,
            KeyCode::KanaMode => 124,
            KeyCode::Convert => 125,
            KeyCode::NonConvert => 126,
            KeyCode::MediaTrackNext => 127,
            KeyCode::MediaPlayPause => 128,
            KeyCode::MediaTrackPrevious => 129,
            KeyCode::MediaSelect => 130,
            KeyCode::MediaStop => 131,
            KeyCode::BrowserBack => 132,
            KeyCode::BrowserFavorites => 133,
            KeyCode::BrowserForward => 134,
            KeyCode::BrowserHome => 135,
            KeyCode::BrowserRefresh => 136,
            KeyCode::BrowserSearch => 137,
            KeyCode::BrowserStop => 138,
            KeyCode::LaunchApp1 => 139,
            KeyCode::LaunchApp2 => 140,
            KeyCode::LaunchMail => 141,
            KeyCode::Sleep => 142,
        }
    }

    /// The key with wire identifier `id`, or `None` where no key has it.
    pub fn from_id(id: u8) -> (r: Option<KeyCode>)
        ensures
            r == key_of_id(id),
            forall|k: KeyCode| (r == Some(k)) <==> key_id(k) == id,
    {
        proof {
            lemma_id_round_trip();
        }
        match id {
            0 => Some(KeyCode::Backquote),
            1 => Some(KeyCode::Backslash),
            2 => Some(KeyCode::BracketLeft),
            3 => Some(KeyCode::BracketRight),
            4 => Some(KeyCode::Comma),
            5 => Some(KeyCode::Digit0),
            6 => Some(KeyCode::Digit1),
            7 => Some(KeyCode::Digit2),
            8 => Some(KeyCode::Digit3),
            9 => Some(KeyCode::Digit4),
            10 => Some(KeyCode::Digit5),
            11 => Some(KeyCode::Digit6),
            12 => Some(KeyCode::Digit7),
            13 => Some(KeyCode::Digit8),
            14 => Some(KeyCode::Digit9),
            15 => Some(KeyCode::Equal),
            16 => Some(KeyCode::KeyA),
            17 => Some(KeyCode::KeyB),
            18 => Some(KeyCode::KeyC),
            19 => Some(KeyCode::KeyD),
            20 => Some(KeyCode::KeyE),
            21 => Some(KeyCode::KeyF),
            22 => Some(KeyCode::KeyG),
            23 => Some(KeyCode::KeyH),
            24 => Some(KeyCode::KeyI),
            25 => Some(KeyCode::KeyJ),
            26 => Some(KeyCode::KeyK),
            27 => Some(KeyCode::KeyL),
            28 => Some(KeyCode::KeyM),
            29 => Some(KeyCode::KeyN),
            30 => Some(KeyCode::KeyO),
            31 => Some(KeyCode::KeyP),
            32 => Some(KeyCode::KeyQ),
            33 => Some(KeyCode::KeyR),
            34 => Some(KeyCode::KeyS),
            35 => Some(KeyCode::KeyT),
            36 => Some(KeyCode::KeyU),
            37 => Some(KeyCode::KeyV),
            38 => Some(KeyCode::KeyW),
            39 => Some(KeyCode::KeyX),
            40 => Some(KeyCode::KeyY),
            41 => Some(KeyCode::KeyZ),
            42 => Some(KeyCode::Minus),
            43 => Some(KeyCode::Period),
            44 => Some(KeyCode::Quote),
            45 => Some(KeyCode::Semicolon),
            46 => Some(KeyCode::Slash),
            47 => Some(KeyCode::AltLeft),
            48 => Some(KeyCode::AltRight),
            49 => Some(KeyCode::Backspace),
            50 => Some(KeyCode::CapsLock),
            51 => Some(KeyCode::ControlLeft),
            52 => Some(KeyCode::ControlRight),
            53 => Some(KeyCode::Enter),
            54 => Some(KeyCode::SuperLeft),
            55 => Some(KeyCode::SuperRight),
            56 => Some(KeyCode::ShiftLeft),
            57 => Some(KeyCode::ShiftRight),
            58 => Some(KeyCode::Space),
            59 => Some(KeyCode::Tab),
            60 => Some(KeyCode::Delete),
            61 => Some(KeyCode::End),
            62 => Some(KeyCode::Home),
            63 => Some(KeyCode::Insert),
            64 => Some(KeyCode::PageDown),
            65 => Some(KeyCode::PageUp),
            66 => Some(KeyCode::ArrowDown),
            67 => Some(KeyCode::ArrowLeft),
            68 => Some(KeyCode::ArrowRight),
            69 => Some(KeyCode::ArrowUp),
            70 => Some(KeyCode::NumLock),
            71 => Some(KeyCode::Numpad0),
            72 => Some(KeyCode::Numpad1),
            73 => Some(KeyCode::Numpad2),
            74 => Some(KeyCode::Numpad3),
            75 => Some(KeyCode::Numpad4),
            76 => Some(KeyCode::Numpad5),
            77 => Some(KeyCode::Numpad6),
            78 => Some(KeyCode::Numpad7),
            79 => Some(KeyCode::Numpad8),
            80 => Some(KeyCode::Numpad9),
            81 => Some(KeyCode::NumpadAdd),
            82 => Some(KeyCode::NumpadBackspace),
            83 => Some(KeyCode::NumpadClear),
            84 => Some(KeyCode::NumpadClearEntry),
            85 => Some(KeyCode::NumpadComma),
            86 => Some(KeyCode::NumpadDecimal),
            87 => Some(KeyCode::NumpadDivide),
            88 => Some(KeyCode::NumpadMultiply),
            89 => Some(KeyCode::NumpadSubtract),
            90 => Some(KeyCode::Escape),
            91 => Some(KeyCode::PrintScreen),
            92 => Some(KeyCode::ScrollLock),
            93 => Some(KeyCode::Pause),
            94 => Some(KeyCode::AudioVolumeDown),
            95 => Some(KeyCode::AudioVolumeMute),
            96 => Some(KeyCode::AudioVolumeUp),
            97 => Some(KeyCode::F1),
            98 => Some(KeyCode::F2),
            99 => Some(KeyCode::F3),
            100 => Some(KeyCode::F4),
            101 => Some(KeyCode::F5),
            102 => Some(KeyCode::F6),
            103 => Some(KeyCode::F7),
            104 => Some(KeyCode::F8),
            105 => Some(KeyCode::F9),
            106 => Some(KeyCode::F10),
            107 => Some(KeyCode::F11),
            108 => Some(KeyCode::F12),
            109 => Some(KeyCode::F13),
            110 => Some(KeyCode::F14),
            111 => Some(KeyCode::F15),
            112 => Some(KeyCode::F16),
            113 => Some(KeyCode::F17),
            114 => Some(KeyCode::F18),
            115 => Some(KeyCode::F19),
            116 => Some(KeyCode::F20),
            117 => Some(KeyCode::F21),
            118 => Some(KeyCode::F22),
            119 => Some(KeyCode::F23),
            120 => Some(KeyCode::F24),
            121 => Some(KeyCode::Help),
            122 => Some(KeyCode::ContextMenu),
            123 => Some(KeyCode::Meta),
            124 => Some(KeyCode::KanaMode),
            125 => Some(KeyCode::Convert),
            126 => Some(KeyCode::NonConvert),
            127 => Some(KeyCode::MediaTrackNext),
            128 => Some(KeyCode::MediaPlayPause),
            129 => Some(KeyCode::MediaTrackPrevious),
            130 => Some(KeyCode::MediaSelect),
            131 => Some(KeyCode::MediaStop),
            132 => Some(KeyCode::BrowserBack),
            133 => Some(KeyCode::BrowserFavorites),
            134 => Some(KeyCode::BrowserForward),
            135 => Some(KeyCode::BrowserHome),
            136 => Some(KeyCode::BrowserRefresh),
            137 => Some(KeyCode::BrowserSearch),
            138 => Some(KeyCode::BrowserStop),
            139 => Some(KeyCode::LaunchApp1),
            140 => Some(KeyCode::LaunchApp2),
            141 => Some(KeyCode::LaunchMail),
            142 => Some(KeyCode::Sleep),
            _ => None,
        }
    }

    /// The USB HID usage of this key, or `None` where the keyboard page has
    /// none.
    pub fn usage(&self) -> (r: Option<u8>)
        ensures
            r == hid_usage(*self),
    {
        match self {
            KeyCode::Backquote => Some(0x35),
            KeyCode::Backslash => Some(0x31),
            KeyCode::BracketLeft => Some(0x2F),
            KeyCode::BracketRight => Some(0x30),
            KeyCode::Comma => Some(0x36),
            KeyCode::Digit0 => Some(0x27),
            KeyCode::Digit1 => Some(0x1E),
            KeyCode::Digit2 => Some(0x1F),
            KeyCode::Digit3 => Some(0x20),
            KeyCode::Digit4 => Some(0x21),
            KeyCode::Digit5 => Some(0x22),
            KeyCode::Digit6 => Some(0x23),
            KeyCode::Digit7 => Some(0x24),
            KeyCode::Digit8 => Some(0x25),
            KeyCode::Digit9 => Some(0x26),
            KeyCode::Equal => Some(0x2E),
            KeyCode::KeyA => Some(0x04),
            KeyCode::KeyB => Some(0x05),
            KeyCode::KeyC => Some(0x06),
            KeyCode::KeyD => Some(0x07),
            KeyCode::KeyE => Some(0x08),
            KeyCode::KeyF => Some(0x09),
            KeyCode::KeyG => Some(0x0A),
            KeyCode::KeyH => Some(0x0B),
            KeyCode::KeyI => Some(0x0C),
            KeyCode::KeyJ => Some(0x0D),
            KeyCode::KeyK => Some(0x0E),
            KeyCode::KeyL => Some(0x0F),
            KeyCode::KeyM => Some(0x10),
            KeyCode::KeyN => Some(0x11),
            KeyCode::KeyO => Some(0x12),
            KeyCode::KeyP => Some(0x13),
            KeyCode::KeyQ => Some(0x14),
            KeyCode::KeyR => Some(0x15),
            KeyCode::KeyS => Some(0x16),
            KeyCode::KeyT => Some(0x17),
            KeyCode::KeyU => Some(0x18),
            KeyCode::KeyV => Some(0x19),
            KeyCode::KeyW => Some(0x1A),
            KeyCode::KeyX => Some(0x1B),
            KeyCode::KeyY => Some(0x1C),
            KeyCode::KeyZ => Some(0x1D),
            KeyCode::Minus => Some(0x2D),
            KeyCode::Period => Some(0x37),
            KeyCode::Quote => Some(0x34),
            KeyCode::Semicolon => Some(0x33),
            KeyCode::Slash => Some(0x38),
            KeyCode::AltLeft => Some(0xE2),
            KeyCode::AltRight => Some(0xE3),
            KeyCode::Backspace => Some(0x2A),
            KeyCode::CapsLock => Some(0x39),
            KeyCode::ControlLeft => Some(0xE0),
            KeyCode::ControlRight => Some(0xE4),
            KeyCode::Enter => Some(0x28),
            KeyCode::SuperLeft => Some(0xE3),
            KeyCode::SuperRight => Some(0xE7),
            KeyCode::ShiftLeft => Some(0xE1),
            KeyCode::ShiftRight => Some(0xE5),
            KeyCode::Space => Some(0x2C),
            KeyCode::Tab => Some(0x2B),
            KeyCode::Delete => Some(0x4C),
            KeyCode::End => Some(0x4D),
            KeyCode::Home => Some(0x4A),
            KeyCode::Insert => Some(0x49),
            KeyCode::PageDown => Some(0x4E),
            KeyCode::PageUp => Some(0x4B),
            KeyCode::ArrowDown => Some(0x51),
            KeyCode::ArrowLeft => Some(0x50),
            KeyCode::ArrowRight => Some(0x4F),
            KeyCode::ArrowUp => Some(0x52),
            KeyCode::NumLock => Some(0x53),
            KeyCode::Numpad0 => Some(0x62),
            KeyCode::Numpad1 => Some(0x59),
            KeyCode::Numpad2 => Some(0x5A),
            KeyCode::Numpad3 => Some(0x5B),
            KeyCode::Numpad4 => Some(0x5C),
            KeyCode::Numpad5 => Some(0x5D),
            KeyCode::Numpad6 => Some(0x5E),
            KeyCode::Numpad7 => Some(0x5F),
            KeyCode::Numpad8 => Some(0x60),
            KeyCode::Numpad9 => Some(0x61),
            KeyCode::NumpadAdd => Some(0xD3),
            KeyCode::NumpadBackspace => Some(0xBB),
            KeyCode::NumpadClear => Some(0xD8),
            KeyCode::NumpadClearEntry => Some(0xD9),
            KeyCode::NumpadComma => Some(0x85),
            KeyCode::NumpadDecimal => Some(0x63),
            KeyCode::NumpadDivide => Some(0x54),
            KeyCode::NumpadMultiply => Some(0x55),
            KeyCode::NumpadSubtract => Some(0x56),
            KeyCode::Escape => Some(0x29),
            KeyCode::PrintScreen => Some(0x46),
            KeyCode::ScrollLock => Some(0x47),
            KeyCode::Pause => Some(0x48),
            KeyCode::AudioVolumeDown => Some(0x81),
            KeyCode::AudioVolumeMute => Some(0x7F),
            KeyCode::AudioVolumeUp => Some(0x80),
            KeyCode::F1 => Some(0x3A),
            KeyCode::F2 => Some(0x3B),
            KeyCode::F3 => Some(0x3C),
            KeyCode::F4 => Some(0x3D),
            KeyCode::F5 => Some(0x3E),
            KeyCode::F6 => Some(0x3F),
            KeyCode::F7 => Some(0x40),
            KeyCode::F8 => Some(0x41),
            KeyCode::F9 => Some(0x42),
            KeyCode::F10 => Some(0x43),
            KeyCode::F11 => Some(0x44),
            KeyCode::F12 => Some(0x45),
            KeyCode::F13 => Some(0x68),
            KeyCode::F14 => Some(0x69),
            KeyCode::F15 => Some(0x6A),
            KeyCode::F16 => Some(0x6B),
            KeyCode::F17 => Some(0x6C),
            KeyCode::F18 => Some(0x6D),
            KeyCode::F19 => Some(0x6E),
            KeyCode::F20 => Some(0x6F),
            KeyCode::F21 => Some(0x70),
            KeyCode::F22 => Some(0x71),
            KeyCode::F23 => Some(0x72),
            KeyCode::F24 => Some(0x73),
            KeyCode::Help => Some(0x75),
            KeyCode::ContextMenu => Some(0x65),
            KeyCode::Meta => Some(0xE3),
            KeyCode::KanaMode => Some(0x88),
            KeyCode::Convert => Some(0x8A),
            KeyCode::NonConvert => Some(0x8B),
            _ => None,
        }
    }

    /// The Windows virtual-key code of this key, or `None` where the
    /// injection backend has no code for it.
    pub fn virtual_key(&self) -> (r: Option<u8>)
        ensures
            r == virtual_key(*self),
    {
        match self {
            KeyCode::Backquote => Some(0xC0),
            KeyCode::Backslash => Some(0xDC),
            KeyCode::BracketLeft => Some(0xDB),
            KeyCode::BracketRight => Some(0xDD),
            KeyCode::Comma => Some(0xBC),
            KeyCode::Digit0 => Some(0x30),
            KeyCode::Digit1 => Some(0x31),
            KeyCode::Digit2 => Some(0x32),
            KeyCode::Digit3 => Some(0x33),
            KeyCode::Digit4 => Some(0x34),
            KeyCode::Digit5 => Some(0x35),
            KeyCode::Digit6 => Some(0x36),
            KeyCode::Digit7 => Some(0x37),
            KeyCode::Digit8 => Some(0x38),
            KeyCode::Digit9 => Some(0x39),
            KeyCode::Equal => Some(0xBB),
            KeyCode::KeyA => Some(0x41),
            KeyCode::KeyB => Some(0x42),
            KeyCode::KeyC => Some(0x43),
            KeyCode::KeyD => Some(0x44),
            KeyCode::KeyE => Some(0x45),
            KeyCode::KeyF => Some(0x46),
            KeyCode::KeyG => Some(0x47),
            KeyCode::KeyH => Some(0x48),
            KeyCode::KeyI => Some(0x49),
            KeyCode::KeyJ => Some(0x4A),
            KeyCode::KeyK => Some(0x4B),
            KeyCode::KeyL => Some(0x4C),
            KeyCode::KeyM => Some(0x4D),
            KeyCode::KeyN => Some(0x4E),
            KeyCode::KeyO => Some(0x4F),
            KeyCode::KeyP => Some(0x50),
            KeyCode::KeyQ => Some(0x51),
            KeyCode::KeyR => Some(0x52),
            KeyCode::KeyS => Some(0x53),
            KeyCode::KeyT => Some(0x54),
            KeyCode::KeyU => Some(0x55),
            KeyCode::KeyV => Some(0x56),
            KeyCode::KeyW => Some(0x57),
            KeyCode::KeyX => Some(0x58),
            KeyCode::KeyY => Some(0x59),
            KeyCode::KeyZ => Some(0x5A),
            KeyCode::Minus => Some(0xBD),
            KeyCode::Period => Some(0xBE),
            KeyCode::Quote => Some(0xDE),
            KeyCode::Semicolon => Some(0xBA),
            KeyCode::Slash => Some(0xBF),
            KeyCode::AltLeft => Some(0x12),
            KeyCode::AltRight => Some(0x5B),
            KeyCode::Backspace => Some(0x08),
            KeyCode::CapsLock => Some(0x14),
            KeyCode::ControlLeft => Some(0x11),
            KeyCode::ControlRight => Some(0x11),
            KeyCode::Enter => Some(0x0D),
            KeyCode::ShiftLeft => Some(0xA0),
            KeyCode::ShiftRight => Some(0xA1),
            KeyCode::Space => Some(0x20),
            KeyCode::Tab => Some(0x09),
            KeyCode::Delete => Some(0x2E),
            KeyCode::End => Some(0x23),
            KeyCode::Home => Some(0x24),
            KeyCode::Insert => Some(0x2D),
            KeyCode::PageDown => Some(0x22),
            KeyCode::PageUp => Some(0x21),
            KeyCode::ArrowDown => Some(0x28),
            KeyCode::ArrowLeft => Some(0x25),
            KeyCode::ArrowRight => Some(0x27),
            KeyCode::ArrowUp => Some(0x26),
            KeyCode::NumLock => Some(0x90),
            KeyCode::Numpad0 => Some(0x60),
            KeyCode::Numpad1 => Some(0x61),
            KeyCode::Numpad2 => Some(0x62),
            KeyCode::Numpad3 => Some(0x63),
            KeyCode::Numpad4 => Some(0x64),
            KeyCode::Numpad5 => Some(0x65),
            KeyCode::Numpad6 => Some(0x66),
            KeyCode::Numpad7 => Some(0x67),
            KeyCode::Numpad8 => Some(0x68),
            KeyCode::Numpad9 => Some(0x69),
            KeyCode::NumpadAdd => Some(0x6B),
            KeyCode::NumpadDecimal => Some(0x6E),
            KeyCode::NumpadDivide => Some(0x6F),
            KeyCode::NumpadMultiply => Some(0x6A),
            KeyCode::NumpadSubtract => Some(0x6D),
            KeyCode::Escape => Some(0x1B),
            KeyCode::PrintScreen => Some(0x2C),
            KeyCode::Pause => Some(0x13),
            KeyCode::AudioVolumeDown => Some(0xAE),
            KeyCode::AudioVolumeMute => Some(0xAD),
            KeyCode::AudioVolumeUp => Some(0xAF),
            KeyCode::F1 => Some(0x70),
            KeyCode::F2 => Some(0x71),
            KeyCode::F3 => Some(0x72),
            KeyCode::F4 => Some(0x73),
            KeyCode::F5 => Some(0x74),
            KeyCode::F6 => Some(0x75),
            KeyCode::F7 => Some(0x76),
            KeyCode::F8 => Some(0x77),
            KeyCode::F9 => Some(0x78),
            KeyCode::F10 => Some(0x79),
            KeyCode::F11 => Some(0x7A),
            KeyCode::F12 => Some(0x7B),
            KeyCode::F13 => Some(0x7C),
            KeyCode::F14 => Some(0x7D),
            KeyCode::F15 => Some(0x7E),
            KeyCode::F16 => Some(0x7F),
            KeyCode::F17 => Some(0x80),
            KeyCode::F18 => Some(0x81),
            KeyCode::F19 => Some(0x82),
            KeyCode::F20 => Some(0x83),
            KeyCode::F21 => Some(0x84),
            KeyCode::F22 => Some(0x85),
            KeyCode::F23 => Some(0x86),
            KeyCode::F24 => Some(0x87),
            KeyCode::Help => Some(0x2F),
            KeyCode::ContextMenu => Some(0x5D),
            KeyCode::Meta => Some(0x5B),
            KeyCode::KanaMode => Some(0x15),
            KeyCode::Convert => Some(0x1C),
            KeyCode::NonConvert => Some(0x1D),
            KeyCode::MediaTrackNext => Some(0xB0),
            KeyCode::MediaPlayPause => Some(0xB3),
            KeyCode::MediaTrackPrevious => Some(0xB1),
            KeyCode::MediaSelect => Some(0xB5),
            KeyCode::MediaStop => Some(0xB2),
            KeyCode::BrowserBack => Some(0xA6),
            KeyCode::BrowserFavorites => Some(0xAB),
            KeyCode::BrowserForward => Some(0xA7),
            KeyCode::BrowserHome => Some(0xAC),
            KeyCode::BrowserRefresh => Some(0xA8),
            KeyCode::BrowserSearch => Some(0xAA),
            KeyCode::BrowserStop => Some(0xA9),
            KeyCode::LaunchApp1 => Some(0xB6),
            KeyCode::LaunchApp2 => Some(0xB7),
            KeyCode::LaunchMail => Some(0xB4),
            KeyCode::Sleep => Some(0x5F),
            _ => None,
        }
    }
}


/// Every key has a wire identifier of its own.
pub proof fn lemma_id_round_trip()
    ensures
        forall|k: KeyCode| #[trigger] key_of_id(key_id(k)) == Some(k),
{
}

/// Whether a key or button went down or came up.
#[derive(Clone, Copy, Debug, PartialEq, Eq, Hash, Structural)]
pub enum ElementState {
    Pressed,
    Released,
}

/// The byte that stands for a state: one for pressed, zero for released.
pub open spec fn state_byte(s: ElementState) -> u8 {
    match s {
        ElementState::Pressed => 1,
        ElementState::Released => 0,
    }
}

/// The state that a byte stands for, if any.
pub open spec fn state_of_byte(b: u8) -> Option<ElementState> {
    if b == 1 {
        Some(ElementState::Pressed)
    } else if b == 0 {
        Some(ElementState::Released)
    } else {
        None
    }
}

impl ElementState {
    pub fn to_byte(&self) -> (r: u8)
        ensures
            r == state_byte(*self),
    {
        match self {
            ElementState::Pressed => 1,
            ElementState::Released => 0,
        }
    }

    pub fn from_byte(b: u8) -> (r: Option<ElementState>)
        ensures
            r == state_of_byte(b),
    {
        if b == 1 {
            Some(ElementState::Pressed)
        } else if b == 0 {
            Some(ElementState::Released)
        } else {
            None
        }
    }
}

/// A mouse button that the capture side can forward.
#[derive(Clone, Copy, Debug, PartialEq, Eq, Hash, Structural)]
pub enum MouseButton {
    Left,
    Right,
    Middle,
    Back,
    Forward,
}

/// The HID button number of each button.
pub open spec fn button_id(b: MouseButton) -> u8 {
    match b {
        MouseButton::Left => 1,
        MouseButton::Right => 2,
        MouseButton::Middle => 3,
        MouseButton::Back => 4,
        MouseButton::Forward => 5,
    }
}

/// The button with a given HID button number, if any.
pub open spec fn button_of_id(id: u8) -> Option<MouseButton> {
    if id == 1 {
        Some(MouseButton::Left)
    } else if id == 2 {
        Some(MouseButton::Right)
    } else if id == 3 {
        Some(MouseButton::Middle)
    } else if id == 4 {
        Some(MouseButton::Back)
    } else if id == 5 {
        Some(MouseButton::Forward)
    } else {
        None
    }
}

impl MouseButton {
    pub fn id(&self) -> (r: u8)
        ensures
            r == button_id(*self),
    {
        match self {
            MouseButton::Left => 1,
            MouseButton::Right => 2,
            MouseButton::Middle => 3,
            MouseButton::Back => 4,
            MouseButton::Forward => 5,
        }
    }

    pub fn from_id(id: u8) -> (r: Option<MouseButton>)
        ensures
            r == button_of_id(id),
    {
        if id == 1 {
            Some(MouseButton::Left)
        } else if id == 2 {
            Some(MouseButton::Right)
        } else if id == 3 {
            Some(MouseButton::Middle)
        } else if id == 4 {
            Some(MouseButton::Back)
        } else if id == 5 {
            Some(MouseButton::Forward)
        } else {
            None
        }
    }
}

/// A key that changed state.
#[derive(Clone, Copy, Debug, PartialEq, Eq, Hash, Structural)]
pub struct ScanCode {
    pub code: KeyCode,
    pub dir: ElementState,
}

impl ScanCode {
    pub fn new(code: KeyCode, dir: ElementState) -> (r: ScanCode)
        ensures
            r == (ScanCode { code, dir }),
    {
        ScanCode { code, dir }
    }

    /// The HID usage that a USB keyboard would report for this key, or
    /// `None` where the keyboard page has none.
    pub fn to_hid(&self) -> (r: Option<u8>)
        ensures
            r == hid_usage(self.code),
    {
        self.code.usage()
    }

    /// The Windows virtual-key code of this key, or `None` where the
    /// injection backend has none.
    pub fn to_winput(&self) -> (r: Option<u8>)
        ensures
            r == virtual_key(self.code),
    {
        self.code.virtual_key()
    }
}

/// A mouse button that changed state.
#[derive(Clone, Copy, Debug, PartialEq, Eq, Hash, Structural)]
pub struct MouseButtons {
    pub button: MouseButton,
    pub dir: ElementState,
}

impl MouseButtons {
    pub fn new(button: MouseButton, dir: ElementState) -> (r: MouseButtons)
        ensures
            r == (MouseButtons { button, dir }),
    {
        MouseButtons { button, dir }
    }

    /// The HID button number of this button.
    pub fn to_hid(&self) -> (r: u8)
        ensures
            r == button_id(self.button),
    {
        self.button.id()
    }
}

/// One captured input event.
#[derive(Clone, Copy, Debug, PartialEq, Eq, Hash, Structural)]
pub enum HidEvent {
    Key(ScanCode),
    MouseDelta(i32, i32),
    MouseButton(MouseButtons),
    MouseScroll(i32),
}

} // verus!
