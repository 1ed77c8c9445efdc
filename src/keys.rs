//! Keys and modifier state as the host reports them.
use vstd::prelude::*;

verus! {

/// A physical key, independent of keyboard layout.
#[derive(Debug, Clone, Copy, PartialEq, Eq, Structural)]
pub enum KeyCode {
    KeyA,
    KeyB,
    KeyC,
    KeyD,
    KeyE,
    KeyF,
    KeyG,
    KeyH,
    KeyI,
    KeyJ,
    KeyK,
    KeyL,
    KeyM,
    KeyN,
    KeyO,
    KeyP,
    KeyQ,
    KeyR,
    KeyS,
    KeyT,
    KeyU,
    KeyV,
    KeyW,
    KeyX,
    KeyY,
    KeyZ,

    Num0,
    Num1,
    Num2,
    Num3,
    Num4,
    Num5,
    Num6,
    Num7,
    Num8,
    Num9,

    Backslash,
    CloseBracket,
    Comma,
    EqualSign,
    Hyphen,
    NonUSBackslash,
    NonUSPound,
    OpenBracket,
    Period,
    Quote,
    Semicolon,
    Separator,
    Slash,
    Spacebar,

    CapsLock,
    LeftAlt,
    LeftControl,
    LeftShift,
    LockingCapsLock,
    LockingNumLock,
    LockingScrollLock,
    RightAlt,
    RightControl,
    RightShift,
    ScrollLock,

    LeftArrow,
    RightArrow,
    UpArrow,
    DownArrow,
    PageUp,
    PageDown,
    Home,
    End,
    DeleteForward,
    DeleteOrBackspace,
    Escape,
    Insert,
    Return,
    Tab,

    Unknown,
}

/// The key that a platform virtual key code names (the layout of Apple
/// keyboards); codes without an entry are `Unknown`.
pub open spec fn platform_key(code: u16) -> KeyCode {
    match code {
        0x00 => KeyCode::KeyA,
        0x01 => KeyCode::KeyS,
        0x02 => KeyCode::KeyD,
        0x03 => KeyCode::KeyF,
        0x04 => KeyCode::KeyH,
        0x05 => KeyCode::KeyG,
        0x06 => KeyCode::KeyZ,
        0x07 => KeyCode::KeyX,
        0x08 => KeyCode::KeyC,
        0x09 => KeyCode::KeyV,
        0x0A => KeyCode::NonUSBackslash,
        0x0B => KeyCode::KeyB,
        0x0C => KeyCode::KeyQ,
        0x0D => KeyCode::KeyW,
        0x0E => KeyCode::KeyE,
        0x0F => KeyCode::KeyR,
        0x10 => KeyCode::KeyY,
        0x11 => KeyCode::KeyT,
        0x12 => KeyCode::Num1,
        0x13 => KeyCode::Num2,
        0x14 => KeyCode::Num3,
        0x15 => KeyCode::Num4,
        0x16 => KeyCode::Num6,
        0x17 => KeyCode::Num5,
        0x18 => KeyCode::EqualSign,
        0x19 => KeyCode::Num9,
        0x1A => KeyCode::Num7,
        0x1B => KeyCode::Hyphen,
        0x1C => KeyCode::Num8,
        0x1D => KeyCode::Num0,
        0x1E => KeyCode::CloseBracket,
        0x1F => KeyCode::KeyO,
        0x20 => KeyCode::KeyU,
        0x21 => KeyCode::OpenBracket,
        0x22 => KeyCode::KeyI,
        0x23 => KeyCode::KeyP,
        0x24 => KeyCode::Return,
        0x25 => KeyCode::KeyL,
        0x26 => KeyCode::KeyJ,
        0x27 => KeyCode::Quote,
        0x28 => KeyCode::KeyK,
        0x29 => KeyCode::Semicolon,
        0x2A => KeyCode::Backslash,
        0x2B => KeyCode::Comma,
        0x2C => KeyCode::Slash,
        0x2D => KeyCode::KeyN,
        0x2E => KeyCode::KeyM,
        0x2F => KeyCode::Period,
        0x30 => KeyCode::Tab,
        0x31 => KeyCode::Spacebar,
        0x32 => KeyCode::NonUSPound,
        0x33 => KeyCode::DeleteOrBackspace,
        0x34 => KeyCode::Return,
        0x35 => KeyCode::Escape,
        0x5F => KeyCode::Separator,
        0x72 => KeyCode::Insert,
        0x73 => KeyCode::Home,
        0x74 => KeyCode::PageUp,
        0x75 => KeyCode::DeleteForward,
        0x77 => KeyCode::End,
        0x79 => KeyCode::PageDown,
        0x7B => KeyCode::LeftArrow,
        0x7C => KeyCode::RightArrow,
        0x7D => KeyCode::DownArrow,
        0x7E => KeyCode::UpArrow,
        _ => KeyCode::Unknown,
    }
}

/// Translates a platform virtual key code; codes without an entry become
/// `KeyCode::Unknown` rather than failing.
pub fn key_code_from_platform(code: u16) -> (k: KeyCode)
    ensures
        k == platform_key(code),
{
    match code {
        0x00 => KeyCode::KeyA,
        0x01 => KeyCode::KeyS,
        0x02 => KeyCode::KeyD,
        0x03 => KeyCode::KeyF,
        0x04 => KeyCode::KeyH,
        0x05 => KeyCode::KeyG,
        0x06 => KeyCode::KeyZ,
        0x07 => KeyCode::KeyX,
        0x08 => KeyCode::KeyC,
        0x09 => KeyCode::KeyV,
        0x0A => KeyCode::NonUSBackslash,
        0x0B => KeyCode::KeyB,
        0x0C => KeyCode::KeyQ,
        0x0D => KeyCode::KeyW,
        0x0E => KeyCode::KeyE,
        0x0F => KeyCode::KeyR,
        0x10 => KeyCode::KeyY,
        0x11 => KeyCode::KeyT,
        0x12 => KeyCode::Num1,
        0x13 => KeyCode::Num2,
        0x14 => KeyCode::Num3,
        0x15 => KeyCode::Num4,
        0x16 => KeyCode::Num6,
        0x17 => KeyCode::Num5,
        0x18 => KeyCode::EqualSign,
        0x19 => KeyCode::Num9,
        0x1A => KeyCode::Num7,
        0x1B => KeyCode::Hyphen,
        0x1C => KeyCode::Num8,
        0x1D => KeyCode::Num0,
        0x1E => KeyCode::CloseBracket,
        0x1F => KeyCode::KeyO,
        0x20 => KeyCode::KeyU,
        0x21 => KeyCode::OpenBracket,
        0x22 => KeyCode::KeyI,
        0x23 => KeyCode::KeyP,
        0x24 => KeyCode::Return,
        0x25 => KeyCode::KeyL,
        0x26 => KeyCode::KeyJ,
        0x27 => KeyCode::Quote,
        0x28 => KeyCode::KeyK,
        0x29 => KeyCode::Semicolon,
        0x2A => KeyCode::Backslash,
        0x2B => KeyCode::Comma,
        0x2C => KeyCode::Slash,
        0x2D => KeyCode::KeyN,
        0x2E => KeyCode::KeyM,
        0x2F => KeyCode::Period,
        0x30 => KeyCode::Tab,
        0x31 => KeyCode::Spacebar,
        0x32 => KeyCode::NonUSPound,
        0x33 => KeyCode::DeleteOrBackspace,
        0x34 => KeyCode::Return,
        0x35 => KeyCode::Escape,
        0x5F => KeyCode::Separator,
        0x72 => KeyCode::Insert,
        0x73 => KeyCode::Home,
        0x74 => KeyCode::PageUp,
        0x75 => KeyCode::DeleteForward,
        0x77 => KeyCode::End,
        0x79 => KeyCode::PageDown,
        0x7B => KeyCode::LeftArrow,
        0x7C => KeyCode::RightArrow,
        0x7D => KeyCode::DownArrow,
        0x7E => KeyCode::UpArrow,
        _ => KeyCode::Unknown,
    }
}

/// The key that a browser key code (`KeyboardEvent.keyCode`) names; codes
/// without an entry are `Unknown`.
pub open spec fn browser_key(code: u32) -> KeyCode {
    match code {
        8 => KeyCode::DeleteOrBackspace,
        9 => KeyCode::Tab,
        13 => KeyCode::Return,
        16 => KeyCode::LeftShift,
        17 => KeyCode::LeftControl,
        18 => KeyCode::LeftAlt,
        20 => KeyCode::CapsLock,
        27 => KeyCode::Escape,
        32 => KeyCode::Spacebar,
        33 => KeyCode::PageUp,
        34 => KeyCode::PageDown,
        35 => KeyCode::End,
        36 => KeyCode::Home,
        37 => KeyCode::LeftArrow,
        38 => KeyCode::UpArrow,
        39 => KeyCode::RightArrow,
        40 => KeyCode::DownArrow,
        45 => KeyCode::Insert,
        46 => KeyCode::DeleteForward,
        48 => KeyCode::Num0,
        49 => KeyCode::Num1,
        50 => KeyCode::Num2,
        51 => KeyCode::Num3,
        52 => KeyCode::Num4,
        53 => KeyCode::Num5,
        54 => KeyCode::Num6,
        55 => KeyCode::Num7,
        56 => KeyCode::Num8,
        57 => KeyCode::Num9,
        65 => KeyCode::KeyA,
        66 => KeyCode::KeyB,
        67 => KeyCode::KeyC,
        68 => KeyCode::KeyD,
        69 => KeyCode::KeyE,
        70 => KeyCode::KeyF,
        71 => KeyCode::KeyG,
        72 => KeyCode::KeyH,
        73 => KeyCode::KeyI,
        74 => KeyCode::KeyJ,
        75 => KeyCode::KeyK,
        76 => KeyCode::KeyL,
        77 => KeyCode::KeyM,
        78 => KeyCode::KeyN,
        79 => KeyCode::KeyO,
        80 => KeyCode::KeyP,
        81 => KeyCode::KeyQ,
        82 => KeyCode::KeyR,
        83 => KeyCode::KeyS,
        84 => KeyCode::KeyT,
        85 => KeyCode::KeyU,
        86 => KeyCode::KeyV,
        87 => KeyCode::KeyW,
        88 => KeyCode::KeyX,
        89 => KeyCode::KeyY,
        90 => KeyCode::KeyZ,
        145 => KeyCode::ScrollLock,
        186 => KeyCode::Semicolon,
        187 => KeyCode::EqualSign,
        188 => KeyCode::Comma,
        189 => KeyCode::Hyphen,
        190 => KeyCode::Period,
        191 => KeyCode::Slash,
        219 => KeyCode::OpenBracket,
        220 => KeyCode::Backslash,
        221 => KeyCode::CloseBracket,
        222 => KeyCode::Quote,
        _ => KeyCode::Unknown,
    }
}

/// Translates a browser key code; codes without an entry become
/// `KeyCode::Unknown` rather than failing.
pub fn key_code_from_browser(code: u32) -> (k: KeyCode)
    ensures
        k == browser_key(code),
{
    match code {
        8 => KeyCode::DeleteOrBackspace,
        9 => KeyCode::Tab,
        13 => KeyCode::Return,
        16 => KeyCode::LeftShift,
        17 => KeyCode::LeftControl,
        18 => KeyCode::LeftAlt,
        20 => KeyCode::CapsLock,
        27 => KeyCode::Escape,
        32 => KeyCode::Spacebar,
        33 => KeyCode::PageUp,
        34 => KeyCode::PageDown,
        35 => KeyCode::End,
        36 => KeyCode::Home,
        37 => KeyCode::LeftArrow,
        38 => KeyCode::UpArrow,
        39 => KeyCode::RightArrow,
        40 => KeyCode::DownArrow,
        45 => KeyCode::Insert,
        46 => KeyCode::DeleteForward,
        48 => KeyCode::Num0,
        49 => KeyCode::Num1,
        50 => KeyCode::Num2,
        51 => KeyCode::Num3,
        52 => KeyCode::Num4,
        53 => KeyCode::Num5,
        54 => KeyCode::Num6,
        55 => KeyCode::Num7,
        56 => KeyCode::Num8,
        57 => KeyCode::Num9,
        65 => KeyCode::KeyA,
        66 => KeyCode::KeyB,
        67 => KeyCode::KeyC,
        68 => KeyCode::KeyD,
        69 => KeyCode::KeyE,
        70 => KeyCode::KeyF,
        71 => KeyCode::KeyG,
        72 => KeyCode::KeyH,
        73 => KeyCode::KeyI,
        74 => KeyCode::KeyJ,
        75 => KeyCode::KeyK,
        76 => KeyCode::KeyL,
        77 => KeyCode::KeyM,
        78 => KeyCode::KeyN,
        79 => KeyCode::KeyO,
        80 => KeyCode::KeyP,
        81 => KeyCode::KeyQ,
        82 => KeyCode::KeyR,
        83 => KeyCode::KeyS,
        84 => KeyCode::KeyT,
        85 => KeyCode::KeyU,
        86 => KeyCode::KeyV,
        87 => KeyCode::KeyW,
        88 => KeyCode::KeyX,
        89 => KeyCode::KeyY,
        90 => KeyCode::KeyZ,
        145 => KeyCode::ScrollLock,
        186 => KeyCode::Semicolon,
        187 => KeyCode::EqualSign,
        188 => KeyCode::Comma,
        189 => KeyCode::Hyphen,
        190 => KeyCode::Period,
        191 => KeyCode::Slash,
        219 => KeyCode::OpenBracket,
        220 => KeyCode::Backslash,
        221 => KeyCode::CloseBracket,
        222 => KeyCode::Quote,
        _ => KeyCode::Unknown,
    }
}

/// Whether a key is one whose presses and releases come from the modifier
/// state rather than from key reports.
pub open spec fn is_modifier_key(k: KeyCode) -> bool {
    k == KeyCode::CapsLock || k == KeyCode::LeftShift || k == KeyCode::LeftControl || k
        == KeyCode::LeftAlt
}

/// Whether a key is one whose presses and releases come from the modifier
/// state rather than from key reports.
pub fn modifier_key(k: KeyCode) -> (b: bool)
    ensures
        b == is_modifier_key(k),
{
    match k {
        KeyCode::CapsLock | KeyCode::LeftShift | KeyCode::LeftControl | KeyCode::LeftAlt => true,
        _ => false,
    }
}

/// A set of held modifiers, one bit each.
#[derive(Debug, Clone, Copy, PartialEq, Eq, Structural)]
pub struct KeyModifiers(pub u8);

impl KeyModifiers {
    // The bit of each modifier; `KeyModifiers(KeyModifiers::SHIFT)` holds shift alone.
    pub const CLEAR: u8 = 0;
    pub const CAPSLOCK: u8 = 1;
    pub const SHIFT: u8 = 2;
    pub const CONTROL: u8 = 4;
    pub const OPTION: u8 = 8;
    pub const COMMAND: u8 = 16;
    pub const NUMERIC_PAD: u8 = 32;
    pub const HELP: u8 = 64;
    pub const FUNCTION: u8 = 128;

    /// The modifiers held in either set.
    pub fn union(self, rhs: Self) -> (r: Self)
        ensures
            r.0 == self.0 | rhs.0,
    {
        KeyModifiers(self.0 | rhs.0)
    }

    /// The modifiers held in both sets.
    pub fn intersection(self, rhs: Self) -> (r: Self)
        ensures
            r.0 == self.0 & rhs.0,
    {
        KeyModifiers(self.0 & rhs.0)
    }

    /// Whether every modifier of `other` is held here.
    pub fn contains(self, other: Self) -> (r: bool)
        ensures
            r == (self.0 & other.0 == other.0),
    {
        self.0 & other.0 == other.0
    }

    /// The set holding exactly the modifiers whose flags are set.
    pub fn from_flags(caps_lock: bool, shift: bool, control: bool, option: bool, command: bool) -> (r:
        Self)
        ensures
            r.0 == (if caps_lock {
                KeyModifiers::CAPSLOCK
            } else {
                0u8
            }) | (if shift {
                KeyModifiers::SHIFT
            } else {
                0u8
            }) | (if control {
                KeyModifiers::CONTROL
            } else {
                0u8
            }) | (if option {
                KeyModifiers::OPTION
            } else {
                0u8
            }) | (if command {
                KeyModifiers::COMMAND
            } else {
                0u8
            }),
    {
        let caps_bit: u8 = if caps_lock {
            KeyModifiers::CAPSLOCK
        } else {
            0
        };
        let shift_bit: u8 = if shift {
            KeyModifiers::SHIFT
        } else {
            0
        };
        let control_bit: u8 = if control {
            KeyModifiers::CONTROL
        } else {
            0
        };
        let option_bit: u8 = if option {
            KeyModifiers::OPTION
        } else {
            0
        };
        let command_bit: u8 = if command {
            KeyModifiers::COMMAND
        } else {
            0
        };
        KeyModifiers(caps_bit | shift_bit | control_bit | option_bit | command_bit)
    }

    /// The modifiers held in a platform modifier word, whose device
    /// independent flags occupy bits 16 to 23 in the same order as here
    /// (caps lock, shift, control, option, command, numeric pad, help,
    /// function); every other bit is ignored.
    pub fn from_platform_bits(bits: u64) -> (r: Self)
        ensures
            r.0 as u64 == (bits >> 16u64) & 0xffu64,
    {
        let r = KeyModifiers(((bits >> 16u64) & 0xffu64) as u8);
        assert(((bits >> 16u64) & 0xffu64) as u8 as u64 == (bits >> 16u64) & 0xffu64) by (bit_vector);
        r
    }
}

impl core::ops::BitOr for KeyModifiers {
    type Output = Self;

    fn bitor(self, rhs: Self) -> (r: Self) {
        self.union(rhs)
    }
}

impl vstd::std_specs::ops::BitOrSpecImpl for KeyModifiers {
    open spec fn obeys_bitor_spec() -> bool {
        true
    }

    open spec fn bitor_req(self, rhs: Self) -> bool {
        true
    }

    open spec fn bitor_spec(self, rhs: Self) -> Self {
        KeyModifiers(self.0 | rhs.0)
    }
}

impl core::ops::BitAnd for KeyModifiers {
    type Output = Self;

    fn bitand(self, rhs: Self) -> (r: Self) {
        self.intersection(rhs)
    }
}

impl vstd::std_specs::ops::BitAndSpecImpl for KeyModifiers {
    open spec fn obeys_bitand_spec() -> bool {
        true
    }

    open spec fn bitand_req(self, rhs: Self) -> bool {
        true
    }

    open spec fn bitand_spec(self, rhs: Self) -> Self {
        KeyModifiers(self.0 & rhs.0)
    }
}

} // verus!
