//! The portable event taxonomy produced by the per-backend translators.
//!
//! A native notification is translated into exactly one `RawEvent`: the id of
//! the addressed window together with a portable `Event`. Notifications that
//! have no portable meaning become `Event::Unknown`, which is never an error.

use vstd::prelude::*;

verus! {

/// One translated native notification: the addressed window and the event.
#[derive(Clone, Copy, Debug, PartialEq, Eq, Structural)]
pub struct RawEvent {
    pub window: u64,
    pub event: Event,
}

#[derive(Clone, Copy, Debug, PartialEq, Eq, Structural)]
pub enum Event {
    Window(WindowEvent),
    Widget(WidgetEvent),
    /// A native notification this core does not translate. Never an error.
    Unknown,
}

#[derive(Clone, Copy, Debug, PartialEq, Eq, Structural)]
pub enum WindowEvent {
    /// Keyboard key press
    KeyPress(Modifiers, Key),
    /// Keyboard key release
    KeyRelease(Modifiers, Key),
    /// Sent when the window changes state
    StateChange(WindowState),
    /// Sent when the window is resized; client-area pixels
    Resize(u32, u32),
    /// Sent when the window is asked to close
    Closing,
}

#[derive(Clone, Copy, Debug, PartialEq, Eq, Structural)]
pub enum WindowState {
    Maximized,
    Fullscreen,
    Suspended,
    Activated,
}

#[derive(Clone, Copy, Debug, PartialEq, Eq, Structural)]
pub enum WidgetEvent {
    /// Sent when entering (true) or leaving (false)
    Hover(bool),
    /// Cursor is moving; (x, y) in client-area pixels
    Move(i32, i32),
    /// Pointer button press; (x, y) in client-area pixels
    ButtonPress(Button, i32, i32),
    /// Pointer button release; (x, y) in client-area pixels
    ButtonRelease(Button, i32, i32),
}

#[derive(Clone, Copy, Debug, PartialEq, Eq, Structural)]
pub enum Button {
    Left,
    Middle,
    Right,
    Forward,
    Back,
    Other,
}

impl Button {
    pub open spec fn from_code_spec(code: u8) -> Button {
        match code {
            1u8 => Button::Left,
            2u8 => Button::Middle,
            3u8 => Button::Right,
            4u8 => Button::Forward,
            5u8 => Button::Back,
            _ => Button::Other,
        }
    }

    /// The fixed native-button-code lookup table shared by the backends.
    pub fn from_code(code: u8) -> (r: Self)
        ensures
            r == Button::from_code_spec(code),
    {
        match code {
            1 => Button::Left,
            2 => Button::Middle,
            3 => Button::Right,
            4 => Button::Forward,
            5 => Button::Back,
            _ => Button::Other,
        }
    }
}

/// Bit of `Modifiers` set while a Shift key is held.
pub const MOD_SHIFT: u8 = 1;
/// Bit of `Modifiers` set while a Control key is held.
pub const MOD_CONTROL: u8 = 2;
/// Bit of `Modifiers` set while an Alt key is held.
pub const MOD_ALT: u8 = 4;
/// Bit of `Modifiers` set while a Super / Windows / Command key is held.
pub const MOD_SUPER: u8 = 8;

/// A bitmask over the four portable modifier keys.
#[derive(Clone, Copy, Debug, Default, PartialEq, Eq, Structural)]
pub struct Modifiers(pub u8);

impl Modifiers {
    pub fn none() -> (r: Self)
        ensures
            r.0 == 0,
    {
        Modifiers(0)
    }

    /// Builds the mask from one independent query per modifier key.
    pub fn from_flags(shift: bool, control: bool, alt: bool, superkey: bool) -> (r: Self)
        ensures
            r == Modifiers::from_flags_spec(shift, control, alt, superkey),
    {
        let shift_bit: u8 = if shift { MOD_SHIFT } else { 0 };
        let control_bit: u8 = if control { MOD_CONTROL } else { 0 };
        let alt_bit: u8 = if alt { MOD_ALT } else { 0 };
        let super_bit: u8 = if superkey { MOD_SUPER } else { 0 };
        Modifiers(shift_bit | control_bit | alt_bit | super_bit)
    }

    pub open spec fn from_flags_spec(shift: bool, control: bool, alt: bool, superkey: bool)
        -> Modifiers {
        Modifiers(
            (if shift { MOD_SHIFT } else { 0 })
            | (if control { MOD_CONTROL } else { 0 })
            | (if alt { MOD_ALT } else { 0 })
            | (if superkey { MOD_SUPER } else { 0 }),
        )
    }

    /// Bitwise OR of two masks.
    pub fn union(self, rhs: Self) -> (r: Self)
        ensures
            r.0 == self.0 | rhs.0,
    {
        Modifiers(self.0 | rhs.0)
    }

    /// Bitwise AND of two masks.
    pub fn intersect(self, rhs: Self) -> (r: Self)
        ensures
            r.0 == self.0 & rhs.0,
    {
        Modifiers(self.0 & rhs.0)
    }

    /// Bitwise NOT of a mask.
    pub fn complement(self) -> (r: Self)
        ensures
            r.0 == !self.0,
    {
        Modifiers(!self.0)
    }

    /// Whether every bit of `mask` is set in `self`.
    pub fn contains(self, mask: u8) -> (r: bool)
        ensures
            r == (self.0 & mask == mask),
    {
        self.0 & mask == mask
    }
}

#[allow(non_camel_case_types)]
#[derive(Clone, Copy, Debug, PartialEq, Eq, Structural)]
pub enum Key {
    Escape,
    Tab,
    Space,
    a,
    b,
    c,
    d,
    e,
    f,
    g,
    h,
    i,
    j,
    k,
    l,
    m,
    n,
    o,
    p,
    q,
    r,
    s,
    t,
    u,
    v,
    w,
    x,
    y,
    z,
    A,
    B,
    C,
    D,
    E,
    F,
    G,
    H,
    I,
    J,
    K,
    L,
    M,
    N,
    O,
    P,
    Q,
    R,
    S,
    T,
    U,
    V,
    W,
    X,
    Y,
    Z,
    Key1,
    Exclam,
    Key2,
    At,
    Key3,
    NumberSign,
    Key4,
    Dollar,
    Key5,
    Percent,
    Key6,
    Circum,
    Key7,
    Amp,
    Key8,
    Asterisk,
    Key9,
    LeftParen,
    Key0,
    RightParen,
    Backtick,
    Tilde,
    Minus,
    Underscore,
    Equals,
    Plus,
    LeftBracket,
    LeftBrace,
    RightBracket,
    RightBrace,
    Backslash,
    Bar,
    Colon,
    Semicolon,
    Apostrophe,
    Quote,
    Comma,
    Less,
    Period,
    Greater,
    Slash,
    Question,
    /// 103rd key, sometimes found between LShift and Z.
    Oem103,
    Backspace,
    Enter,
    F1,
    F2,
    F3,
    F4,
    F5,
    F6,
    F7,
    F8,
    F9,
    F10,
    F11,
    F12,
    PrintScreen,
    /// Mostly outdated
    Pause,
    Break,
    Insert,
    Delete,
    Home,
    End,
    PgUp,
    PgDn,
    ArrowLeft,
    ArrowRight,
    ArrowUp,
    ArrowDown,
    Num0,
    Num1,
    Num2,
    Num3,
    Num4,
    Num5,
    Num6,
    Num7,
    Num8,
    Num9,
    NumAdd,
    NumSub,
    NumMul,
    NumDiv,
    NumEnter,
    NumDecimal,
    Menu,
    Other,
}

impl Key {
    /// The glyph this key produces while Shift is held: letters map to their
    /// uppercase variant, symbol keys to their shifted glyph; every other key
    /// is unchanged.
    pub open spec fn shifted(self) -> Key {
        match self {
            Key::a => Key::A,
            Key::b => Key::B,
            Key::c => Key::C,
            Key::d => Key::D,
            Key::e => Key::E,
            Key::f => Key::F,
            Key::g => Key::G,
            Key::h => Key::H,
            Key::i => Key::I,
            Key::j => Key::J,
            Key::k => Key::K,
            Key::l => Key::L,
            Key::m => Key::M,
            Key::n => Key::N,
            Key::o => Key::O,
            Key::p => Key::P,
            Key::q => Key::Q,
            Key::r => Key::R,
            Key::s => Key::S,
            Key::t => Key::T,
            Key::u => Key::U,
            Key::v => Key::V,
            Key::w => Key::W,
            Key::x => Key::X,
            Key::y => Key::Y,
            Key::z => Key::Z,
            Key::Key1 => Key::Exclam,
            Key::Key2 => Key::At,
            Key::Key3 => Key::NumberSign,
            Key::Key4 => Key::Dollar,
            Key::Key5 => Key::Percent,
            Key::Key6 => Key::Circum,
            Key::Key7 => Key::Amp,
            Key::Key8 => Key::Asterisk,
            Key::Key9 => Key::LeftParen,
            Key::Key0 => Key::RightParen,
            Key::Backtick => Key::Tilde,
            Key::Minus => Key::Underscore,
            Key::Equals => Key::Plus,
            Key::LeftBracket => Key::LeftBrace,
            Key::RightBracket => Key::RightBrace,
            Key::Backslash => Key::Bar,
            Key::Colon => Key::Semicolon,
            Key::Apostrophe => Key::Quote,
            Key::Comma => Key::Less,
            Key::Period => Key::Greater,
            Key::Slash => Key::Question,
            other => other,
        }
    }

    /// Inverse transform of `shifted` on the keys `shifted` changes.
    pub open spec fn unshifted(self) -> Key {
        match self {
            Key::A => Key::a,
            Key::B => Key::b,
            Key::C => Key::c,
            Key::D => Key::d,
            Key::E => Key::e,
            Key::F => Key::f,
            Key::G => Key::g,
            Key::H => Key::h,
            Key::I => Key::i,
            Key::J => Key::j,
            Key::K => Key::k,
            Key::L => Key::l,
            Key::M => Key::m,
            Key::N => Key::n,
            Key::O => Key::o,
            Key::P => Key::p,
            Key::Q => Key::q,
            Key::R => Key::r,
            Key::S => Key::s,
            Key::T => Key::t,
            Key::U => Key::u,
            Key::V => Key::v,
            Key::W => Key::w,
            Key::X => Key::x,
            Key::Y => Key::y,
            Key::Z => Key::z,
            Key::Exclam => Key::Key1,
            Key::At => Key::Key2,
            Key::NumberSign => Key::Key3,
            Key::Dollar => Key::Key4,
            Key::Percent => Key::Key5,
            Key::Circum => Key::Key6,
            Key::Amp => Key::Key7,
            Key::Asterisk => Key::Key8,
            Key::LeftParen => Key::Key9,
            Key::RightParen => Key::Key0,
            Key::Tilde => Key::Backtick,
            Key::Underscore => Key::Minus,
            Key::Plus => Key::Equals,
            Key::LeftBrace => Key::LeftBracket,
            Key::RightBrace => Key::RightBracket,
            Key::Bar => Key::Backslash,
            Key::Semicolon => Key::Colon,
            Key::Quote => Key::Apostrophe,
            Key::Less => Key::Comma,
            Key::Greater => Key::Period,
            Key::Question => Key::Slash,
            other => other,
        }
    }

    pub fn shift(self) -> (res: Self)
        ensures
            res == self.shifted(),
    {
        match self {
            Key::a => Key::A,
            Key::b => Key::B,
            Key::c => Key::C,
            Key::d => Key::D,
            Key::e => Key::E,
            Key::f => Key::F,
            Key::g => Key::G,
            Key::h => Key::H,
            Key::i => Key::I,
            Key::j => Key::J,
            Key::k => Key::K,
            Key::l => Key::L,
            Key::m => Key::M,
            Key::n => Key::N,
            Key::o => Key::O,
            Key::p => Key::P,
            Key::q => Key::Q,
            Key::r => Key::R,
            Key::s => Key::S,
            Key::t => Key::T,
            Key::u => Key::U,
            Key::v => Key::V,
            Key::w => Key::W,
            Key::x => Key::X,
            Key::y => Key::Y,
            Key::z => Key::Z,
            Key::Key1 => Key::Exclam,
            Key::Key2 => Key::At,
            Key::Key3 => Key::NumberSign,
            Key::Key4 => Key::Dollar,
            Key::Key5 => Key::Percent,
            Key::Key6 => Key::Circum,
            Key::Key7 => Key::Amp,
            Key::Key8 => Key::Asterisk,
            Key::Key9 => Key::LeftParen,
            Key::Key0 => Key::RightParen,
            Key::Backtick => Key::Tilde,
            Key::Minus => Key::Underscore,
            Key::Equals => Key::Plus,
            Key::LeftBracket => Key::LeftBrace,
            Key::RightBracket => Key::RightBrace,
            Key::Backslash => Key::Bar,
            Key::Colon => Key::Semicolon,
            Key::Apostrophe => Key::Quote,
            Key::Comma => Key::Less,
            Key::Period => Key::Greater,
            Key::Slash => Key::Question,
            other => other,
        }
    }

    pub fn unshift(self) -> (res: Self)
        ensures
            res == self.unshifted(),
    {
        match self {
            Key::A => Key::a,
            Key::B => Key::b,
            Key::C => Key::c,
            Key::D => Key::d,
            Key::E => Key::e,
            Key::F => Key::f,
            Key::G => Key::g,
            Key::H => Key::h,
            Key::I => Key::i,
            Key::J => Key::j,
            Key::K => Key::k,
            Key::L => Key::l,
            Key::M => Key::m,
            Key::N => Key::n,
            Key::O => Key::o,
            Key::P => Key::p,
            Key::Q => Key::q,
            Key::R => Key::r,
            Key::S => Key::s,
            Key::T => Key::t,
            Key::U => Key::u,
            Key::V => Key::v,
            Key::W => Key::w,
            Key::X => Key::x,
            Key::Y => Key::y,
            Key::Z => Key::z,
            Key::Exclam => Key::Key1,
            Key::At => Key::Key2,
            Key::NumberSign => Key::Key3,
            Key::Dollar => Key::Key4,
            Key::Percent => Key::Key5,
            Key::Circum => Key::Key6,
            Key::Amp => Key::Key7,
            Key::Asterisk => Key::Key8,
            Key::LeftParen => Key::Key9,
            Key::RightParen => Key::Key0,
            Key::Tilde => Key::Backtick,
            Key::Underscore => Key::Minus,
            Key::Plus => Key::Equals,
            Key::LeftBrace => Key::LeftBracket,
            Key::RightBrace => Key::RightBracket,
            Key::Bar => Key::Backslash,
            Key::Semicolon => Key::Colon,
            Key::Quote => Key::Apostrophe,
            Key::Less => Key::Comma,
            Key::Greater => Key::Period,
            Key::Question => Key::Slash,
            other => other,
        }
    }
}


impl Key {
    /// The text a press of this key inserts, empty for keys that insert none.
    pub open spec fn text_spec(self) -> Seq<char> {
        match self {
            Key::Escape => "\x1b"@,
            Key::Tab => "\x09"@,
            Key::Space => " "@,
            Key::a => "a"@,
            Key::b => "b"@,
            Key::c => "c"@,
            Key::d => "d"@,
            Key::e => "e"@,
            Key::f => "f"@,
            Key::g => "g"@,
            Key::h => "h"@,
            Key::i => "i"@,
            Key::j => "j"@,
            Key::k => "k"@,
            Key::l => "l"@,
            Key::m => "m"@,
            Key::n => "n"@,
            Key::o => "o"@,
            Key::p => "p"@,
            Key::q => "q"@,
            Key::r => "r"@,
            Key::s => "s"@,
            Key::t => "t"@,
            Key::u => "u"@,
            Key::v => "v"@,
            Key::w => "w"@,
            Key::x => "x"@,
            Key::y => "y"@,
            Key::z => "z"@,
            Key::A => "A"@,
            Key::B => "B"@,
            Key::C => "C"@,
            Key::D => "D"@,
            Key::E => "E"@,
            Key::F => "F"@,
            Key::G => "G"@,
            Key::H => "H"@,
            Key::I => "I"@,
            Key::J => "J"@,
            Key::K => "K"@,
            Key::L => "L"@,
            Key::M => "M"@,
            Key::N => "N"@,
            Key::O => "O"@,
            Key::P => "P"@,
            Key::Q => "Q"@,
            Key::R => "R"@,
            Key::S => "S"@,
            Key::T => "T"@,
            Key::U => "U"@,
            Key::V => "V"@,
            Key::W => "W"@,
            Key::X => "X"@,
            Key::Y => "Y"@,
            Key::Z => "Z"@,
            Key::Key1 => "1"@,
            Key::Exclam => "!"@,
            Key::Key2 => "2"@,
            Key::At => "@"@,
            Key::Key3 => "3"@,
            Key::NumberSign => "#"@,
            Key::Key4 => "4"@,
            Key::Dollar => "$"@,
            Key::Key5 => "5"@,
            Key::Percent => "%"@,
            Key::Key6 => "6"@,
            Key::Circum => "^"@,
            Key::Key7 => "7"@,
            Key::Amp => "&"@,
            Key::Key8 => "8"@,
            Key::Asterisk => "*"@,
            Key::Key9 => "9"@,
            Key::LeftParen => "("@,
            Key::Key0 => "0"@,
            Key::RightParen => ")"@,
            Key::Backtick => "`"@,
            Key::Tilde => "~"@,
            Key::Minus => "-"@,
            Key::Underscore => "_"@,
            Key::Equals => "="@,
            Key::Plus => "+"@,
            Key::LeftBracket => "["@,
            Key::LeftBrace => "{"@,
            Key::RightBracket => "]"@,
            Key::RightBrace => "}"@,
            Key::Backslash => "\\"@,
            Key::Bar => "|"@,
            Key::Colon => ";"@,
            Key::Semicolon => ";"@,
            Key::Apostrophe => "'"@,
            Key::Quote => "\""@,
            Key::Comma => ","@,
            Key::Less => "<"@,
            Key::Period => "."@,
            Key::Greater => ">"@,
            Key::Slash => "/"@,
            Key::Question => "?"@,
            Key::Backspace => "\x08"@,
            Key::Enter => "\n"@,
            Key::Delete => "\x7f"@,
            Key::Home => "Home"@,
            Key::End => "End"@,
            Key::PgUp => "PgUp"@,
            Key::PgDn => "PgDown"@,
            Key::ArrowLeft => "Left"@,
            Key::ArrowRight => "Right"@,
            Key::ArrowUp => "Up"@,
            Key::ArrowDown => "down"@,
            Key::Num0 => "0"@,
            Key::Num1 => "1"@,
            Key::Num2 => "2"@,
            Key::Num3 => "3"@,
            Key::Num4 => "4"@,
            Key::Num5 => "5"@,
            Key::Num6 => "6"@,
            Key::Num7 => "7"@,
            Key::Num8 => "8"@,
            Key::Num9 => "9"@,
            Key::NumAdd => "+"@,
            Key::NumSub => "-"@,
            Key::NumMul => "*"@,
            Key::NumDiv => "/"@,
            Key::NumEnter => "\n"@,
            Key::NumDecimal => "."@,
            _ => ""@,
        }
    }

    /// The text a press of this key inserts: letters and symbols their glyph,
    /// editing keys their control character, navigation keys their name, and
    /// the empty string for keys that insert nothing.
    pub fn text(self) -> (res: &'static str)
        ensures
            res@ == self.text_spec(),
    {
        match self {
            Key::Escape => "\x1b",
            Key::Tab => "\x09",
            Key::Space => " ",
            Key::a => "a",
            Key::b => "b",
            Key::c => "c",
            Key::d => "d",
            Key::e => "e",
            Key::f => "f",
            Key::g => "g",
            Key::h => "h",
            Key::i => "i",
            Key::j => "j",
            Key::k => "k",
            Key::l => "l",
            Key::m => "m",
            Key::n => "n",
            Key::o => "o",
            Key::p => "p",
            Key::q => "q",
            Key::r => "r",
            Key::s => "s",
            Key::t => "t",
            Key::u => "u",
            Key::v => "v",
            Key::w => "w",
            Key::x => "x",
            Key::y => "y",
            Key::z => "z",
            Key::A => "A",
            Key::B => "B",
            Key::C => "C",
            Key::D => "D",
            Key::E => "E",
            Key::F => "F",
            Key::G => "G",
            Key::H => "H",
            Key::I => "I",
            Key::J => "J",
            Key::K => "K",
            Key::L => "L",
            Key::M => "M",
            Key::N => "N",
            Key::O => "O",
            Key::P => "P",
            Key::Q => "Q",
            Key::R => "R",
            Key::S => "S",
            Key::T => "T",
            Key::U => "U",
            Key::V => "V",
            Key::W => "W",
            Key::X => "X",
            Key::Y => "Y",
            Key::Z => "Z",
            Key::Key1 => "1",
            Key::Exclam => "!",
            Key::Key2 => "2",
            Key::At => "@",
            Key::Key3 => "3",
            Key::NumberSign => "#",
            Key::Key4 => "4",
            Key::Dollar => "$",
            Key::Key5 => "5",
            Key::Percent => "%",
            Key::Key6 => "6",
            Key::Circum => "^",
            Key::Key7 => "7",
            Key::Amp => "&",
            Key::Key8 => "8",
            Key::Asterisk => "*",
            Key::Key9 => "9",
            Key::LeftParen => "(",
            Key::Key0 => "0",
            Key::RightParen => ")",
            Key::Backtick => "`",
            Key::Tilde => "~",
            Key::Minus => "-",
            Key::Underscore => "_",
            Key::Equals => "=",
            Key::Plus => "+",
            Key::LeftBracket => "[",
            Key::LeftBrace => "{",
            Key::RightBracket => "]",
            Key::RightBrace => "}",
            Key::Backslash => "\\",
            Key::Bar => "|",
            Key::Colon => ";",
            Key::Semicolon => ";",
            Key::Apostrophe => "'",
            Key::Quote => "\"",
            Key::Comma => ",",
            Key::Less => "<",
            Key::Period => ".",
            Key::Greater => ">",
            Key::Slash => "/",
            Key::Question => "?",
            Key::Backspace => "\x08",
            Key::Enter => "\n",
            Key::Delete => "\x7f",
            Key::Home => "Home",
            Key::End => "End",
            Key::PgUp => "PgUp",
            Key::PgDn => "PgDown",
            Key::ArrowLeft => "Left",
            Key::ArrowRight => "Right",
            Key::ArrowUp => "Up",
            Key::ArrowDown => "down",
            Key::Num0 => "0",
            Key::Num1 => "1",
            Key::Num2 => "2",
            Key::Num3 => "3",
            Key::Num4 => "4",
            Key::Num5 => "5",
            Key::Num6 => "6",
            Key::Num7 => "7",
            Key::Num8 => "8",
            Key::Num9 => "9",
            Key::NumAdd => "+",
            Key::NumSub => "-",
            Key::NumMul => "*",
            Key::NumDiv => "/",
            Key::NumEnter => "\n",
            Key::NumDecimal => ".",
            _ => "",
        }
    }
}

/// Applying the shift transform and then the unshift transform gives the key
/// back, for every key the shift transform changes.
pub proof fn lemma_shift_round_trip(key: Key)
    requires
        key.shifted() != key,
    ensures
        key.shifted().unshifted() == key,
{
}

/// The shift transform changes exactly the lowercase letters and the
/// shiftable symbol keys, and on those the unshift transform is its inverse;
/// on every other key it is the identity.
pub proof fn lemma_unshift_round_trip(key: Key)
    requires
        key.unshifted() != key,
    ensures
        key.unshifted().shifted() == key,
{
}

} // verus!
