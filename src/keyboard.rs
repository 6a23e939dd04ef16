use vstd::prelude::*;

verus! {

/// A physical key, named after its position on a US QWERTY board.
#[derive(Clone, Copy, Debug, PartialEq, Eq, Structural, Hash)]
pub enum Key {
    Alt,
    AltGr,
    Backspace,
    CapsLock,
    ControlLeft,
    ControlRight,
    Delete,
    DownArrow,
    End,
    Escape,
    F1,
    F10,
    F11,
    F12,
    F2,
    F3,
    F4,
    F5,
    F6,
    F7,
    F8,
    F9,
    Home,
    LeftArrow,
    MetaLeft,
    MetaRight,
    PageDown,
    PageUp,
    Return,
    RightArrow,
    ShiftLeft,
    ShiftRight,
    Space,
    Tab,
    UpArrow,
    PrintScreen,
    ScrollLock,
    Pause,
    NumLock,
    BackQuote,
    Num1,
    Num2,
    Num3,
    Num4,
    Num5,
    Num6,
    Num7,
    Num8,
    Num9,
    Num0,
    Minus,
    Equal,
    KeyQ,
    KeyW,
    KeyE,
    KeyR,
    KeyT,
    KeyY,
    KeyU,
    KeyI,
    KeyO,
    KeyP,
    LeftBracket,
    RightBracket,
    KeyA,
    KeyS,
    KeyD,
    KeyF,
    KeyG,
    KeyH,
    KeyJ,
    KeyK,
    KeyL,
    SemiColon,
    Quote,
    BackSlash,
    IntlBackslash,
    KeyZ,
    KeyX,
    KeyC,
    KeyV,
    KeyB,
    KeyN,
    KeyM,
    Comma,
    Dot,
    Slash,
    Insert,
    KpReturn,
    KpMinus,
    KpPlus,
    KpMultiply,
    KpDivide,
    Kp0,
    Kp1,
    Kp2,
    Kp3,
    Kp4,
    Kp5,
    Kp6,
    Kp7,
    Kp8,
    Kp9,
    KpDelete,
    Function,
    /// A key the platform reports only by its raw code.
    Unknown(u32),
}

/// The canonical symbol of a key: letters in lower case, digits, and the
/// punctuation keys `; ' [ ] , . / \`.
pub open spec fn key_symbol(key: Key) -> Option<char> {
    match key {
            Key::KeyA => Some('a'),
            Key::KeyB => Some('b'),
            Key::KeyC => Some('c'),
            Key::KeyD => Some('d'),
            Key::KeyE => Some('e'),
            Key::KeyF => Some('f'),
            Key::KeyG => Some('g'),
            Key::KeyH => Some('h'),
            Key::KeyI => Some('i'),
            Key::KeyJ => Some('j'),
            Key::KeyK => Some('k'),
            Key::KeyL => Some('l'),
            Key::KeyM => Some('m'),
            Key::KeyN => Some('n'),
            Key::KeyO => Some('o'),
            Key::KeyP => Some('p'),
            Key::KeyQ => Some('q'),
            Key::KeyR => Some('r'),
            Key::KeyS => Some('s'),
            Key::KeyT => Some('t'),
            Key::KeyU => Some('u'),
            Key::KeyV => Some('v'),
            Key::KeyW => Some('w'),
            Key::KeyX => Some('x'),
            Key::KeyY => Some('y'),
            Key::KeyZ => Some('z'),
            Key::Num0 => Some('0'),
            Key::Num1 => Some('1'),
            Key::Num2 => Some('2'),
            Key::Num3 => Some('3'),
            Key::Num4 => Some('4'),
            Key::Num5 => Some('5'),
            Key::Num6 => Some('6'),
            Key::Num7 => Some('7'),
            Key::Num8 => Some('8'),
            Key::Num9 => Some('9'),
            Key::SemiColon => Some(';'),
            Key::Quote => Some('\''),
            Key::LeftBracket => Some('['),
            Key::RightBracket => Some(']'),
            Key::Comma => Some(','),
            Key::Dot => Some('.'),
            Key::Slash => Some('/'),
            Key::BackSlash => Some('\\'),
        _ => None,
    }
}

/// The canonical symbol of a key as a character, if it has one.
pub fn key_char(key: Key) -> (r: Option<char>)
    ensures
        r == key_symbol(key),
{
    match key {
            Key::KeyA => Some('a'),
            Key::KeyB => Some('b'),
            Key::KeyC => Some('c'),
            Key::KeyD => Some('d'),
            Key::KeyE => Some('e'),
            Key::KeyF => Some('f'),
            Key::KeyG => Some('g'),
            Key::KeyH => Some('h'),
            Key::KeyI => Some('i'),
            Key::KeyJ => Some('j'),
            Key::KeyK => Some('k'),
            Key::KeyL => Some('l'),
            Key::KeyM => Some('m'),
            Key::KeyN => Some('n'),
            Key::KeyO => Some('o'),
            Key::KeyP => Some('p'),
            Key::KeyQ => Some('q'),
            Key::KeyR => Some('r'),
            Key::KeyS => Some('s'),
            Key::KeyT => Some('t'),
            Key::KeyU => Some('u'),
            Key::KeyV => Some('v'),
            Key::KeyW => Some('w'),
            Key::KeyX => Some('x'),
            Key::KeyY => Some('y'),
            Key::KeyZ => Some('z'),
            Key::Num0 => Some('0'),
            Key::Num1 => Some('1'),
            Key::Num2 => Some('2'),
            Key::Num3 => Some('3'),
            Key::Num4 => Some('4'),
            Key::Num5 => Some('5'),
            Key::Num6 => Some('6'),
            Key::Num7 => Some('7'),
            Key::Num8 => Some('8'),
            Key::Num9 => Some('9'),
            Key::SemiColon => Some(';'),
            Key::Quote => Some('\''),
            Key::LeftBracket => Some('['),
            Key::RightBracket => Some(']'),
            Key::Comma => Some(','),
            Key::Dot => Some('.'),
            Key::Slash => Some('/'),
            Key::BackSlash => Some('\\'),
        _ => None,
    }
}

/// Relies on `char::to_string` (through `Display`): the one-character string.
#[verifier::external_body]
fn char_string(c: char) -> (r: String)
    ensures
        r@ == seq![c],
{
    c.to_string()
}

/// The canonical symbol of a key as a string, or `None` for keys outside the
/// table (function keys, arrows, modifiers, ...).
pub fn get_key_name(key: Key) -> (r: Option<String>)
    ensures
        r is None <==> key_symbol(key) is None,
        r matches Some(s) ==> s@ == seq![key_symbol(key)->0],
{
    match key_char(key) {
        Some(c) => Some(char_string(c)),
        None => None,
    }
}

pub open spec fn spec_is_shift(key: Key) -> bool {
    key == Key::ShiftLeft || key == Key::ShiftRight
}

pub open spec fn spec_is_modifier_non_shift(key: Key) -> bool {
    key == Key::MetaLeft || key == Key::MetaRight || key == Key::Alt || key == Key::AltGr
        || key == Key::ControlLeft || key == Key::ControlRight
}

/// Whether the key is one of the two shift keys.
pub fn is_shift(key: Key) -> (r: bool)
    ensures
        r == spec_is_shift(key),
{
    matches!(key, Key::ShiftLeft | Key::ShiftRight)
}

/// Whether the key is a meta, alt or control key.
pub fn is_modifier_non_shift(key: Key) -> (r: bool)
    ensures
        r == spec_is_modifier_non_shift(key),
{
    matches!(
        key,
        Key::MetaLeft | Key::MetaRight | Key::Alt | Key::AltGr | Key::ControlLeft | Key::ControlRight
    )
}

/// Pressed state of the modifiers other than shift.
#[derive(Clone, Copy, Debug, PartialEq, Eq, Structural, Default)]
pub struct ModifierState {
    pub meta: bool,
    pub alt: bool,
    pub ctrl: bool,
}

impl ModifierState {
    /// The state after `key` went down (`pressed`) or up; keys other than
    /// meta, alt and control leave it as it is.
    pub open spec fn updated(self, key: Key, pressed: bool) -> ModifierState {
        if key == Key::MetaLeft || key == Key::MetaRight {
            ModifierState { meta: pressed, ..self }
        } else if key == Key::Alt || key == Key::AltGr {
            ModifierState { alt: pressed, ..self }
        } else if key == Key::ControlLeft || key == Key::ControlRight {
            ModifierState { ctrl: pressed, ..self }
        } else {
            self
        }
    }

    pub open spec fn spec_is_active(self) -> bool {
        self.meta || self.alt || self.ctrl
    }

    /// No modifier held.
    pub fn new() -> (r: ModifierState)
        ensures
            !r.meta && !r.alt && !r.ctrl,
    {
        ModifierState { meta: false, alt: false, ctrl: false }
    }

    /// Records a press or release of `key`.
    pub fn update(&mut self, key: Key, pressed: bool)
        ensures
            *final(self) == old(self).updated(key, pressed),
    {
        match key {
            Key::MetaLeft | Key::MetaRight => self.meta = pressed,
            Key::Alt | Key::AltGr => self.alt = pressed,
            Key::ControlLeft | Key::ControlRight => self.ctrl = pressed,
            _ => (),
        }
    }

    /// Whether any of meta, alt and control is held.
    pub fn is_active(&self) -> (r: bool)
        ensures
            r == self.spec_is_active(),
    {
        self.meta || self.alt || self.ctrl
    }
}

} // verus!
