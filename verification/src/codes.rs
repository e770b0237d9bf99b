use vstd::prelude::*;

verus! {

/// The stable small-integer identity carried by each `KeyCode`.
pub type KeyCodeId = u8;

/// The stable small-integer identity carried by each `MouseButton`.
pub type MouseButtonId = u8;

/// Closed set of physical-key identifiers, following the W3C UI Events
/// `code` value tables. Each key carries a stable small-integer ordinal,
/// given by `KeyCode::id`; `Unidentified` sits at ordinal zero. The set is
/// pure data: keys only serve as identifiers inside key events.
#[derive(Debug, PartialEq, Eq, PartialOrd, Ord, Hash, Copy, Clone, Structural)]
pub enum KeyCode {
    Unidentified,
    Backquote,
    Backslash,
    BracketLeft,
    BracketRight,
    Comma,
    Digit0,
    Digit1,
    Digit2,
    Digit3,
    Digit4,
    Digit5,
    Digit6,
    Digit7,
    Digit8,
    Digit9,
    Equal,
    IntlBackslash,
    IntlRo,
    IntlYen,
    KeyA,
    KeyB,
    KeyC,
    KeyD,
    KeyE,
    KeyF,
    KeyG,
    KeyH,
    KeyI,
    KeyJ,
    KeyK,
    KeyL,
    KeyM,
    KeyN,
    KeyO,
    KeyP,
    KeyQ,
    KeyR,
    KeyS,
    KeyT,
    KeyU,
    KeyV,
    KeyW,
    KeyX,
    KeyY,
    KeyZ,
    Minus,
    Period,
    Quote,
    Semicolon,
    Slash,
    AltLeft,
    AltRight,
    Backspace,
    CapsLock,
    ContextMenu,
    ControlLeft,
    ControlRight,
    Enter,
    MetaLeft,
    MetaRight,
    ShiftLeft,
    ShiftRight,
    Space,
    Tab,
    Convert,
    KanaMode,
    Lang1,
    Lang2,
    Lang3,
    Lang4,
    Lang5,
    NonConvert,
    Delete,
    End,
    Help,
    Home,
    Insert,
    PageDown,
    PageUp,
    ArrowDown,
    ArrowLeft,
    ArrowRight,
    ArrowUp,
    NumLock,
    Numpad0,
    Numpad1,
    Numpad2,
    Numpad3,
    Numpad4,
    Numpad5,
    Numpad6,
    Numpad7,
    Numpad8,
    Numpad9,
    NumpadAdd,
    NumpadBackspace,
    NumpadClear,
    NumpadClearEntry,
    NumpadComma,
    NumpadDecimal,
    NumpadDivide,
    NumpadEnter,
    NumpadEqual,
    NumpadHash,
    NumpadMemoryAdd,
    NumpadMemoryClear,
    NumpadMemoryRecall,
    NumpadMemoryStore,
    NumpadMemorySubtract,
    NumpadMultiply,
    NumpadParenLeft,
    NumpadParenRight,
    NumpadStar,
    NumpadSubtract,
    Escape,
    F1,
    F2,
    F3,
    F4,
    F5,
    F6,
    F7,
    F8,
    F9,
    F10,
    F11,
    F12,
    Fn,
    FnLock,
    PrintScreen,
    ScrollLock,
    Pause,
    BrowserBack,
    BrowserFavorites,
    BrowserForward,
    BrowserHome,
    BrowserRefresh,
    BrowserSearch,
    BrowserStop,
    Eject,
    LaunchApp1,
    LaunchApp2,
    LaunchMail,
    MediaPlayPause,
    MediaSelect,
    MediaStop,
    MediaTrackNext,
    MediaTrackPrevious,
    Power,
    Sleep,
    AudioVolumeDown,
    AudioVolumeMute,
    AudioVolumeUp,
    WakeUp,
}

impl KeyCode {
    /// The stable ordinal of this key, as a specification-level value.
    pub open spec fn spec_id(self) -> KeyCodeId {
        match self {
            KeyCode::Unidentified => 0,
            KeyCode::Backquote => 1,
            KeyCode::Backslash => 2,
            KeyCode::BracketLeft => 3,
            KeyCode::BracketRight => 4,
            KeyCode::Comma => 5,
            KeyCode::Digit0 => 6,
            KeyCode::Digit1 => 7,
            KeyCode::Digit2 => 8,
            KeyCode::Digit3 => 9,
            KeyCode::Digit4 => 10,
            KeyCode::Digit5 => 11,
            KeyCode::Digit6 => 12,
            KeyCode::Digit7 => 13,
            KeyCode::Digit8 => 14,
            KeyCode::Digit9 => 15,
            KeyCode::Equal => 16,
            KeyCode::IntlBackslash => 17,
            KeyCode::IntlRo => 18,
            KeyCode::IntlYen => 19,
            KeyCode::KeyA => 20,
            KeyCode::KeyB => 21,
            KeyCode::KeyC => 22,
            KeyCode::KeyD => 23,
            KeyCode::KeyE => 24,
            KeyCode::KeyF => 25,
            KeyCode::KeyG => 26,
            KeyCode::KeyH => 27,
            KeyCode::KeyI => 28,
            KeyCode::KeyJ => 29,
            KeyCode::KeyK => 30,
            KeyCode::KeyL => 31,
            KeyCode::KeyM => 32,
            KeyCode::KeyN => 33,
            KeyCode::KeyO => 34,
            KeyCode::KeyP => 35,
            KeyCode::KeyQ => 36,
            KeyCode::KeyR => 37,
            KeyCode::KeyS => 38,
            KeyCode::KeyT => 39,
            KeyCode::KeyU => 40,
            KeyCode::KeyV => 41,
            KeyCode::KeyW => 42,
            KeyCode::KeyX => 43,
            KeyCode::KeyY => 44,
            KeyCode::KeyZ => 45,
            KeyCode::Minus => 46,
            KeyCode::Period => 47,
            KeyCode::Quote => 48,
            KeyCode::Semicolon => 49,
            KeyCode::Slash => 50,
            KeyCode::AltLeft => 51,
            KeyCode::AltRight => 52,
            KeyCode::Backspace => 53,
            KeyCode::CapsLock => 54,
            KeyCode::ContextMenu => 55,
            KeyCode::ControlLeft => 56,
            KeyCode::ControlRight => 57,
            KeyCode::Enter => 58,
            KeyCode::MetaLeft => 59,
            KeyCode::MetaRight => 60,
            KeyCode::ShiftLeft => 61,
            KeyCode::ShiftRight => 62,
            KeyCode::Space => 63,
            KeyCode::Tab => 64,
            KeyCode::Convert => 65,
            KeyCode::KanaMode => 66,
            KeyCode::Lang1 => 67,
            KeyCode::Lang2 => 68,
            KeyCode::Lang3 => 69,
            KeyCode::Lang4 => 70,
            KeyCode::Lang5 => 71,
            KeyCode::NonConvert => 72,
            KeyCode::Delete => 73,
            KeyCode::End => 74,
            KeyCode::Help => 75,
            KeyCode::Home => 76,
            KeyCode::Insert => 77,
            KeyCode::PageDown => 78,
            KeyCode::PageUp => 79,
            KeyCode::ArrowDown => 80,
            KeyCode::ArrowLeft => 81,
            KeyCode::ArrowRight => 82,
            KeyCode::ArrowUp => 83,
            KeyCode::NumLock => 84,
            KeyCode::Numpad0 => 85,
            KeyCode::Numpad1 => 86,
            KeyCode::Numpad2 => 87,
            KeyCode::Numpad3 => 88,
            KeyCode::Numpad4 => 89,
            KeyCode::Numpad5 => 90,
            KeyCode::Numpad6 => 91,
            KeyCode::Numpad7 => 92,
            KeyCode::Numpad8 => 93,
            KeyCode::Numpad9 => 94,
            KeyCode::NumpadAdd => 95,
            KeyCode::NumpadBackspace => 96,
            KeyCode::NumpadClear => 97,
            KeyCode::NumpadClearEntry => 98,
            KeyCode::NumpadComma => 99,
            KeyCode::NumpadDecimal => 100,
            KeyCode::NumpadDivide => 101,
            KeyCode::NumpadEnter => 102,
            KeyCode::NumpadEqual => 103,
            KeyCode::NumpadHash => 104,
            KeyCode::NumpadMemoryAdd => 105,
            KeyCode::NumpadMemoryClear => 106,
            KeyCode::NumpadMemoryRecall => 107,
            KeyCode::NumpadMemoryStore => 108,
            KeyCode::NumpadMemorySubtract => 109,
            KeyCode::NumpadMultiply => 110,
            KeyCode::NumpadParenLeft => 111,
            KeyCode::NumpadParenRight => 112,
            KeyCode::NumpadStar => 113,
            KeyCode::NumpadSubtract => 114,
            KeyCode::Escape => 115,
            KeyCode::F1 => 116,
            KeyCode::F2 => 117,
            KeyCode::F3 => 118,
            KeyCode::F4 => 119,
            KeyCode::F5 => 120,
            KeyCode::F6 => 121,
            KeyCode::F7 => 122,
            KeyCode::F8 => 123,
            KeyCode::F9 => 124,
            KeyCode::F10 => 125,
            KeyCode::F11 => 126,
            KeyCode::F12 => 127,
            KeyCode::Fn => 128,
            KeyCode::FnLock => 129,
            KeyCode::PrintScreen => 130,
            KeyCode::ScrollLock => 131,
            KeyCode::Pause => 132,
            KeyCode::BrowserBack => 133,
            KeyCode::BrowserFavorites => 134,
            KeyCode::BrowserForward => 135,
            KeyCode::BrowserHome => 136,
            KeyCode::BrowserRefresh => 137,
            KeyCode::BrowserSearch => 138,
            KeyCode::BrowserStop => 139,
            KeyCode::Eject => 140,
            KeyCode::LaunchApp1 => 141,
            KeyCode::LaunchApp2 => 142,
            KeyCode::LaunchMail => 143,
            KeyCode::MediaPlayPause => 144,
            KeyCode::MediaSelect => 145,
            KeyCode::MediaStop => 146,
            KeyCode::MediaTrackNext => 147,
            KeyCode::MediaTrackPrevious => 148,
            KeyCode::Power => 149,
            KeyCode::Sleep => 150,
            KeyCode::AudioVolumeDown => 151,
            KeyCode::AudioVolumeMute => 152,
            KeyCode::AudioVolumeUp => 153,
            KeyCode::WakeUp => 154,
        }
    }

    /// Returns the stable ordinal of this key.
    pub fn id(self) -> (r: KeyCodeId)
        ensures
            r == self.spec_id(),
    {
        match self {
            KeyCode::Unidentified => 0,
            KeyCode::Backquote => 1,
            KeyCode::Backslash => 2,
            KeyCode::BracketLeft => 3,
            KeyCode::BracketRight => 4,
            KeyCode::Comma => 5,
            KeyCode::Digit0 => 6,
            KeyCode::Digit1 => 7,
            KeyCode::Digit2 => 8,
            KeyCode::Digit3 => 9,
            KeyCode::Digit4 => 10,
            KeyCode::Digit5 => 11,
            KeyCode::Digit6 => 12,
            KeyCode::Digit7 => 13,
            KeyCode::Digit8 => 14,
            KeyCode::Digit9 => 15,
            KeyCode::Equal => 16,
            KeyCode::IntlBackslash => 17,
            KeyCode::IntlRo => 18,
            KeyCode::IntlYen => 19,
            KeyCode::KeyA => 20,
            KeyCode::KeyB => 21,
            KeyCode::KeyC => 22,
            KeyCode::KeyD => 23,
            KeyCode::KeyE => 24,
            KeyCode::KeyF => 25,
            KeyCode::KeyG => 26,
            KeyCode::KeyH => 27,
            KeyCode::KeyI => 28,
            KeyCode::KeyJ => 29,
            KeyCode::KeyK => 30,
            KeyCode::KeyL => 31,
            KeyCode::KeyM => 32,
            KeyCode::KeyN => 33,
            KeyCode::KeyO => 34,
            KeyCode::KeyP => 35,
            KeyCode::KeyQ => 36,
            KeyCode::KeyR => 37,
            KeyCode::KeyS => 38,
            KeyCode::KeyT => 39,
            KeyCode::KeyU => 40,
            KeyCode::KeyV => 41,
            KeyCode::KeyW => 42,
            KeyCode::KeyX => 43,
            KeyCode::KeyY => 44,
            KeyCode::KeyZ => 45,
            KeyCode::Minus => 46,
            KeyCode::Period => 47,
            KeyCode::Quote => 48,
            KeyCode::Semicolon => 49,
            KeyCode::Slash => 50,
            KeyCode::AltLeft => 51,
            KeyCode::AltRight => 52,
            KeyCode::Backspace => 53,
            KeyCode::CapsLock => 54,
            KeyCode::ContextMenu => 55,
            KeyCode::ControlLeft => 56,
            KeyCode::ControlRight => 57,
            KeyCode::Enter => 58,
            KeyCode::MetaLeft => 59,
            KeyCode::MetaRight => 60,
            KeyCode::ShiftLeft => 61,
            KeyCode::ShiftRight => 62,
            KeyCode::Space => 63,
            KeyCode::Tab => 64,
            KeyCode::Convert => 65,
            KeyCode::KanaMode => 66,
            KeyCode::Lang1 => 67,
            KeyCode::Lang2 => 68,
            KeyCode::Lang3 => 69,
            KeyCode::Lang4 => 70,
            KeyCode::Lang5 => 71,
            KeyCode::NonConvert => 72,
            KeyCode::Delete => 73,
            KeyCode::End => 74,
            KeyCode::Help => 75,
            KeyCode::Home => 76,
            KeyCode::Insert => 77,
            KeyCode::PageDown => 78,
            KeyCode::PageUp => 79,
            KeyCode::ArrowDown => 80,
            KeyCode::ArrowLeft => 81,
            KeyCode::ArrowRight => 82,
            KeyCode::ArrowUp => 83,
            KeyCode::NumLock => 84,
            KeyCode::Numpad0 => 85,
            KeyCode::Numpad1 => 86,
            KeyCode::Numpad2 => 87,
            KeyCode::Numpad3 => 88,
            KeyCode::Numpad4 => 89,
            KeyCode::Numpad5 => 90,
            KeyCode::Numpad6 => 91,
            KeyCode::Numpad7 => 92,
            KeyCode::Numpad8 => 93,
            KeyCode::Numpad9 => 94,
            KeyCode::NumpadAdd => 95,
            KeyCode::NumpadBackspace => 96,
            KeyCode::NumpadClear => 97,
            KeyCode::NumpadClearEntry => 98,
            KeyCode::NumpadComma => 99,
            KeyCode::NumpadDecimal => 100,
            KeyCode::NumpadDivide => 101,
            KeyCode::NumpadEnter => 102,
            KeyCode::NumpadEqual => 103,
            KeyCode::NumpadHash => 104,
            KeyCode::NumpadMemoryAdd => 105,
            KeyCode::NumpadMemoryClear => 106,
            KeyCode::NumpadMemoryRecall => 107,
            KeyCode::NumpadMemoryStore => 108,
            KeyCode::NumpadMemorySubtract => 109,
            KeyCode::NumpadMultiply => 110,
            KeyCode::NumpadParenLeft => 111,
            KeyCode::NumpadParenRight => 112,
            KeyCode::NumpadStar => 113,
            KeyCode::NumpadSubtract => 114,
            KeyCode::Escape => 115,
            KeyCode::F1 => 116,
            KeyCode::F2 => 117,
            KeyCode::F3 => 118,
            KeyCode::F4 => 119,
            KeyCode::F5 => 120,
            KeyCode::F6 => 121,
            KeyCode::F7 => 122,
            KeyCode::F8 => 123,
            KeyCode::F9 => 124,
            KeyCode::F10 => 125,
            KeyCode::F11 => 126,
            KeyCode::F12 => 127,
            KeyCode::Fn => 128,
            KeyCode::FnLock => 129,
            KeyCode::PrintScreen => 130,
            KeyCode::ScrollLock => 131,
            KeyCode::Pause => 132,
            KeyCode::BrowserBack => 133,
            KeyCode::BrowserFavorites => 134,
            KeyCode::BrowserForward => 135,
            KeyCode::BrowserHome => 136,
            KeyCode::BrowserRefresh => 137,
            KeyCode::BrowserSearch => 138,
            KeyCode::BrowserStop => 139,
            KeyCode::Eject => 140,
            KeyCode::LaunchApp1 => 141,
            KeyCode::LaunchApp2 => 142,
            KeyCode::LaunchMail => 143,
            KeyCode::MediaPlayPause => 144,
            KeyCode::MediaSelect => 145,
            KeyCode::MediaStop => 146,
            KeyCode::MediaTrackNext => 147,
            KeyCode::MediaTrackPrevious => 148,
            KeyCode::Power => 149,
            KeyCode::Sleep => 150,
            KeyCode::AudioVolumeDown => 151,
            KeyCode::AudioVolumeMute => 152,
            KeyCode::AudioVolumeUp => 153,
            KeyCode::WakeUp => 154,
        }
    }

    /// Looks a key up by its stable ordinal: `Some` exactly for the
    /// ordinals that some key carries, and then for that key alone.
    pub fn from_id(id: KeyCodeId) -> (r: Option<KeyCode>)
        ensures
            match r {
                Some(c) => c.spec_id() == id,
                None => forall|c: KeyCode| c.spec_id() != id,
            },
    {
        let r = match id {
            0 => Some(KeyCode::Unidentified),
            1 => Some(KeyCode::Backquote),
            2 => Some(KeyCode::Backslash),
            3 => Some(KeyCode::BracketLeft),
            4 => Some(KeyCode::BracketRight),
            5 => Some(KeyCode::Comma),
            6 => Some(KeyCode::Digit0),
            7 => Some(KeyCode::Digit1),
            8 => Some(KeyCode::Digit2),
            9 => Some(KeyCode::Digit3),
            10 => Some(KeyCode::Digit4),
            11 => Some(KeyCode::Digit5),
            12 => Some(KeyCode::Digit6),
            13 => Some(KeyCode::Digit7),
            14 => Some(KeyCode::Digit8),
            15 => Some(KeyCode::Digit9),
            16 => Some(KeyCode::Equal),
            17 => Some(KeyCode::IntlBackslash),
            18 => Some(KeyCode::IntlRo),
            19 => Some(KeyCode::IntlYen),
            20 => Some(KeyCode::KeyA),
            21 => Some(KeyCode::KeyB),
            22 => Some(KeyCode::KeyC),
            23 => Some(KeyCode::KeyD),
            24 => Some(KeyCode::KeyE),
            25 => Some(KeyCode::KeyF),
            26 => Some(KeyCode::KeyG),
            27 => Some(KeyCode::KeyH),
            28 => Some(KeyCode::KeyI),
            29 => Some(KeyCode::KeyJ),
            30 => Some(KeyCode::KeyK),
            31 => Some(KeyCode::KeyL),
            32 => Some(KeyCode::KeyM),
            33 => Some(KeyCode::KeyN),
            34 => Some(KeyCode::KeyO),
            35 => Some(KeyCode::KeyP),
            36 => Some(KeyCode::KeyQ),
            37 => Some(KeyCode::KeyR),
            38 => Some(KeyCode::KeyS),
            39 => Some(KeyCode::KeyT),
            40 => Some(KeyCode::KeyU),
            41 => Some(KeyCode::KeyV),
            42 => Some(KeyCode::KeyW),
            43 => Some(KeyCode::KeyX),
            44 => Some(KeyCode::KeyY),
            45 => Some(KeyCode::KeyZ),
            46 => Some(KeyCode::Minus),
            47 => Some(KeyCode::Period),
            48 => Some(KeyCode::Quote),
            49 => Some(KeyCode::Semicolon),
            50 => Some(KeyCode::Slash),
            51 => Some(KeyCode::AltLeft),
            52 => Some(KeyCode::AltRight),
            53 => Some(KeyCode::Backspace),
            54 => Some(KeyCode::CapsLock),
            55 => Some(KeyCode::ContextMenu),
            56 => Some(KeyCode::ControlLeft),
            57 => Some(KeyCode::ControlRight),
            58 => Some(KeyCode::Enter),
            59 => Some(KeyCode::MetaLeft),
            60 => Some(KeyCode::MetaRight),
            61 => Some(KeyCode::ShiftLeft),
            62 => Some(KeyCode::ShiftRight),
            63 => Some(KeyCode::Space),
            64 => Some(KeyCode::Tab),
            65 => Some(KeyCode::Convert),
            66 => Some(KeyCode::KanaMode),
            67 => Some(KeyCode::Lang1),
            68 => Some(KeyCode::Lang2),
            69 => Some(KeyCode::Lang3),
            70 => Some(KeyCode::Lang4),
            71 => Some(KeyCode::Lang5),
            72 => Some(KeyCode::NonConvert),
            73 => Some(KeyCode::Delete),
            74 => Some(KeyCode::End),
            75 => Some(KeyCode::Help),
            76 => Some(KeyCode::Home),
            77 => Some(KeyCode::Insert),
            78 => Some(KeyCode::PageDown),
            79 => Some(KeyCode::PageUp),
            80 => Some(KeyCode::ArrowDown),
            81 => Some(KeyCode::ArrowLeft),
            82 => Some(KeyCode::ArrowRight),
            83 => Some(KeyCode::ArrowUp),
            84 => Some(KeyCode::NumLock),
            85 => Some(KeyCode::Numpad0),
            86 => Some(KeyCode::Numpad1),
            87 => Some(KeyCode::Numpad2),
            88 => Some(KeyCode::Numpad3),
            89 => Some(KeyCode::Numpad4),
            90 => Some(KeyCode::Numpad5),
            91 => Some(KeyCode::Numpad6),
            92 => Some(KeyCode::Numpad7),
            93 => Some(KeyCode::Numpad8),
            94 => Some(KeyCode::Numpad9),
            95 => Some(KeyCode::NumpadAdd),
            96 => Some(KeyCode::NumpadBackspace),
            97 => Some(KeyCode::NumpadClear),
            98 => Some(KeyCode::NumpadClearEntry),
            99 => Some(KeyCode::NumpadComma),
            100 => Some(KeyCode::NumpadDecimal),
            101 => Some(KeyCode::NumpadDivide),
            102 => Some(KeyCode::NumpadEnter),
            103 => Some(KeyCode::NumpadEqual),
            104 => Some(KeyCode::NumpadHash),
            105 => Some(KeyCode::NumpadMemoryAdd),
            106 => Some(KeyCode::NumpadMemoryClear),
            107 => Some(KeyCode::NumpadMemoryRecall),
            108 => Some(KeyCode::NumpadMemoryStore),
            109 => Some(KeyCode::NumpadMemorySubtract),
            110 => Some(KeyCode::NumpadMultiply),
            111 => Some(KeyCode::NumpadParenLeft),
            112 => Some(KeyCode::NumpadParenRight),
            113 => Some(KeyCode::NumpadStar),
            114 => Some(KeyCode::NumpadSubtract),
            115 => Some(KeyCode::Escape),
            116 => Some(KeyCode::F1),
            117 => Some(KeyCode::F2),
            118 => Some(KeyCode::F3),
            119 => Some(KeyCode::F4),
            120 => Some(KeyCode::F5),
            121 => Some(KeyCode::F6),
            122 => Some(KeyCode::F7),
            123 => Some(KeyCode::F8),
            124 => Some(KeyCode::F9),
            125 => Some(KeyCode::F10),
            126 => Some(KeyCode::F11),
            127 => Some(KeyCode::F12),
            128 => Some(KeyCode::Fn),
            129 => Some(KeyCode::FnLock),
            130 => Some(KeyCode::PrintScreen),
            131 => Some(KeyCode::ScrollLock),
            132 => Some(KeyCode::Pause),
            133 => Some(KeyCode::BrowserBack),
            134 => Some(KeyCode::BrowserFavorites),
            135 => Some(KeyCode::BrowserForward),
            136 => Some(KeyCode::BrowserHome),
            137 => Some(KeyCode::BrowserRefresh),
            138 => Some(KeyCode::BrowserSearch),
            139 => Some(KeyCode::BrowserStop),
            140 => Some(KeyCode::Eject),
            141 => Some(KeyCode::LaunchApp1),
            142 => Some(KeyCode::LaunchApp2),
            143 => Some(KeyCode::LaunchMail),
            144 => Some(KeyCode::MediaPlayPause),
            145 => Some(KeyCode::MediaSelect),
            146 => Some(KeyCode::MediaStop),
            147 => Some(KeyCode::MediaTrackNext),
            148 => Some(KeyCode::MediaTrackPrevious),
            149 => Some(KeyCode::Power),
            150 => Some(KeyCode::Sleep),
            151 => Some(KeyCode::AudioVolumeDown),
            152 => Some(KeyCode::AudioVolumeMute),
            153 => Some(KeyCode::AudioVolumeUp),
            154 => Some(KeyCode::WakeUp),
            _ => None,
        };
        proof {
            if r is None {
                assert forall|c: KeyCode| c.spec_id() != id by {
                    lemma_key_code_id_bound(c);
                }
            }
        }
        r
    }
}

/// Every key ordinal lies below the size of the key table.
pub proof fn lemma_key_code_id_bound(c: KeyCode)
    ensures
        c.spec_id() < 155,
{
}

/// Closed set of mouse-button identifiers, following the W3C UI Events
/// `button` numbering: the ordinal of each button, given by
/// `MouseButton::id`, is its position in declaration order.
#[derive(Debug, PartialEq, Eq, PartialOrd, Ord, Hash, Copy, Clone, Structural)]
pub enum MouseButton {
    Main,
    Aux,
    Secondary,
    Fourth,
    Fifth,
}

impl MouseButton {
    /// The stable ordinal of this button, as a specification-level value.
    pub open spec fn spec_id(self) -> MouseButtonId {
        match self {
            MouseButton::Main => 0,
            MouseButton::Aux => 1,
            MouseButton::Secondary => 2,
            MouseButton::Fourth => 3,
            MouseButton::Fifth => 4,
        }
    }

    /// Returns the stable ordinal of this button.
    pub fn id(self) -> (r: MouseButtonId)
        ensures
            r == self.spec_id(),
    {
        match self {
            MouseButton::Main => 0,
            MouseButton::Aux => 1,
            MouseButton::Secondary => 2,
            MouseButton::Fourth => 3,
            MouseButton::Fifth => 4,
        }
    }

    /// Looks a button up by its stable ordinal: `Some` exactly for the
    /// ordinals that some button carries, and then for that button alone.
    pub fn from_id(id: MouseButtonId) -> (r: Option<MouseButton>)
        ensures
            match r {
                Some(b) => b.spec_id() == id,
                None => forall|b: MouseButton| b.spec_id() != id,
            },
    {
        match id {
            0 => Some(MouseButton::Main),
            1 => Some(MouseButton::Aux),
            2 => Some(MouseButton::Secondary),
            3 => Some(MouseButton::Fourth),
            4 => Some(MouseButton::Fifth),
            _ => None,
        }
    }
}

} // verus!
