//! Keysym-to-portable-key translation.
//!
//! A keysym is the platform-independent identifier the active keymap assigns
//! to a physical key under the current modifier state. Both Linux backends
//! obtain a keysym from the native keymap and translate it here; the shift
//! transform table of [`Key`] is then applied instead of re-querying the
//! keymap, to keep the mapping deterministic.

use vstd::prelude::*;

use crate::event::Key;

verus! {

/// The fixed keysym lookup table, as a function.
pub open spec fn key_from_xkb_spec(sym: u32) -> Key {
    match sym {
            0x20u32 => Key::Space,
            0x21u32 => Key::Exclam,
            0x22u32 => Key::Quote,
            0x23u32 => Key::NumberSign,
            0x24u32 => Key::Dollar,
            0x25u32 => Key::Percent,
            0x26u32 => Key::Amp,
            0x27u32 => Key::Apostrophe,
            0x28u32 => Key::LeftParen,
            0x29u32 => Key::RightParen,
            0x2au32 => Key::Asterisk,
            0x2bu32 => Key::Plus,
            0x2cu32 => Key::Comma,
            0x2du32 => Key::Minus,
            0x2eu32 => Key::Period,
            0x2fu32 => Key::Slash,
            0x30u32 => Key::Key0,
            0x31u32 => Key::Key1,
            0x32u32 => Key::Key2,
            0x33u32 => Key::Key3,
            0x34u32 => Key::Key4,
            0x35u32 => Key::Key5,
            0x36u32 => Key::Key6,
            0x37u32 => Key::Key7,
            0x38u32 => Key::Key8,
            0x39u32 => Key::Key9,
            0x3au32 => Key::Colon,
            0x3bu32 => Key::Semicolon,
            0x3cu32 => Key::Less,
            0x3du32 => Key::Equals,
            0x3eu32 => Key::Greater,
            0x3fu32 => Key::Question,
            0x40u32 => Key::At,
            0x41u32 => Key::A,
            0x42u32 => Key::B,
            0x43u32 => Key::C,
            0x44u32 => Key::D,
            0x45u32 => Key::E,
            0x46u32 => Key::F,
            0x47u32 => Key::G,
            0x48u32 => Key::H,
            0x49u32 => Key::I,
            0x4au32 => Key::J,
            0x4bu32 => Key::K,
            0x4cu32 => Key::L,
            0x4du32 => Key::M,
            0x4eu32 => Key::N,
            0x4fu32 => Key::O,
            0x50u32 => Key::P,
            0x51u32 => Key::Q,
            0x52u32 => Key::R,
            0x53u32 => Key::S,
            0x54u32 => Key::T,
            0x55u32 => Key::U,
            0x56u32 => Key::V,
            0x57u32 => Key::W,
            0x58u32 => Key::X,
            0x59u32 => Key::Y,
            0x5au32 => Key::Z,
            0x5bu32 => Key::LeftBracket,
            0x5cu32 => Key::Backslash,
            0x5du32 => Key::RightBracket,
            0x5eu32 => Key::Circum,
            0x5fu32 => Key::Underscore,
            0x60u32 => Key::Backtick,
            0x61u32 => Key::a,
            0x62u32 => Key::b,
            0x63u32 => Key::c,
            0x64u32 => Key::d,
            0x65u32 => Key::e,
            0x66u32 => Key::f,
            0x67u32 => Key::g,
            0x68u32 => Key::h,
            0x69u32 => Key::i,
            0x6au32 => Key::j,
            0x6bu32 => Key::k,
            0x6cu32 => Key::l,
            0x6du32 => Key::m,
            0x6eu32 => Key::n,
            0x6fu32 => Key::o,
            0x70u32 => Key::p,
            0x71u32 => Key::q,
            0x72u32 => Key::r,
            0x73u32 => Key::s,
            0x74u32 => Key::t,
            0x75u32 => Key::u,
            0x76u32 => Key::v,
            0x77u32 => Key::w,
            0x78u32 => Key::x,
            0x79u32 => Key::y,
            0x7au32 => Key::z,
            0x7bu32 => Key::LeftBrace,
            0x7cu32 => Key::Bar,
            0x7du32 => Key::RightBrace,
            0x7eu32 => Key::Tilde,
            0xff08u32 => Key::Backspace,
            0xff09u32 => Key::Tab,
            0xff0du32 => Key::Enter,
            0xff13u32 => Key::Pause,
            0xff1bu32 => Key::Escape,
            0xffffu32 => Key::Delete,
            0xff51u32 => Key::ArrowLeft,
            0xff52u32 => Key::ArrowUp,
            0xff53u32 => Key::ArrowRight,
            0xff54u32 => Key::ArrowDown,
            0xff55u32 => Key::PgUp,
            0xff56u32 => Key::PgDn,
            0xff57u32 => Key::End,
            0xff58u32 => Key::Home,
            0xff63u32 => Key::Insert,
            0xff67u32 => Key::Menu,
            0xff6bu32 => Key::Break,
            0xffaau32 => Key::NumMul,
            0xffabu32 => Key::NumAdd,
            0xffadu32 => Key::NumSub,
            0xffaeu32 => Key::NumDecimal,
            0xffafu32 => Key::NumDiv,
            0xffb0u32 => Key::Num0,
            0xffb1u32 => Key::Num1,
            0xffb2u32 => Key::Num2,
            0xffb3u32 => Key::Num3,
            0xffb4u32 => Key::Num4,
            0xffb5u32 => Key::Num5,
            0xffb6u32 => Key::Num6,
            0xffb7u32 => Key::Num7,
            0xffb8u32 => Key::Num8,
            0xffb9u32 => Key::Num9,
            0xffbeu32 => Key::F1,
            0xffbfu32 => Key::F2,
            0xffc0u32 => Key::F3,
            0xffc1u32 => Key::F4,
            0xffc2u32 => Key::F5,
            0xffc3u32 => Key::F6,
            0xffc4u32 => Key::F7,
            0xffc5u32 => Key::F8,
            0xffc6u32 => Key::F9,
            0xffc7u32 => Key::F10,
            0xffc8u32 => Key::F11,
            0xffc9u32 => Key::F12,
            _ => Key::Other,
    }
}

/// Maps a keysym to the portable key it stands for; every keysym outside the
/// table maps to `Key::Other`.
pub fn key_from_xkb(sym: u32) -> (res: Key)
    ensures
        res == key_from_xkb_spec(sym),
{
    match sym {
            0x20 => Key::Space,
            0x21 => Key::Exclam,
            0x22 => Key::Quote,
            0x23 => Key::NumberSign,
            0x24 => Key::Dollar,
            0x25 => Key::Percent,
            0x26 => Key::Amp,
            0x27 => Key::Apostrophe,
            0x28 => Key::LeftParen,
            0x29 => Key::RightParen,
            0x2a => Key::Asterisk,
            0x2b => Key::Plus,
            0x2c => Key::Comma,
            0x2d => Key::Minus,
            0x2e => Key::Period,
            0x2f => Key::Slash,
            0x30 => Key::Key0,
            0x31 => Key::Key1,
            0x32 => Key::Key2,
            0x33 => Key::Key3,
            0x34 => Key::Key4,
            0x35 => Key::Key5,
            0x36 => Key::Key6,
            0x37 => Key::Key7,
            0x38 => Key::Key8,
            0x39 => Key::Key9,
            0x3a => Key::Colon,
            0x3b => Key::Semicolon,
            0x3c => Key::Less,
            0x3d => Key::Equals,
            0x3e => Key::Greater,
            0x3f => Key::Question,
            0x40 => Key::At,
            0x41 => Key::A,
            0x42 => Key::B,
            0x43 => Key::C,
            0x44 => Key::D,
            0x45 => Key::E,
            0x46 => Key::F,
            0x47 => Key::G,
            0x48 => Key::H,
            0x49 => Key::I,
            0x4a => Key::J,
            0x4b => Key::K,
            0x4c => Key::L,
            0x4d => Key::M,
            0x4e => Key::N,
            0x4f => Key::O,
            0x50 => Key::P,
            0x51 => Key::Q,
            0x52 => Key::R,
            0x53 => Key::S,
            0x54 => Key::T,
            0x55 => Key::U,
            0x56 => Key::V,
            0x57 => Key::W,
            0x58 => Key::X,
            0x59 => Key::Y,
            0x5a => Key::Z,
            0x5b => Key::LeftBracket,
            0x5c => Key::Backslash,
            0x5d => Key::RightBracket,
            0x5e => Key::Circum,
            0x5f => Key::Underscore,
            0x60 => Key::Backtick,
            0x61 => Key::a,
            0x62 => Key::b,
            0x63 => Key::c,
            0x64 => Key::d,
            0x65 => Key::e,
            0x66 => Key::f,
            0x67 => Key::g,
            0x68 => Key::h,
            0x69 => Key::i,
            0x6a => Key::j,
            0x6b => Key::k,
            0x6c => Key::l,
            0x6d => Key::m,
            0x6e => Key::n,
            0x6f => Key::o,
            0x70 => Key::p,
            0x71 => Key::q,
            0x72 => Key::r,
            0x73 => Key::s,
            0x74 => Key::t,
            0x75 => Key::u,
            0x76 => Key::v,
            0x77 => Key::w,
            0x78 => Key::x,
            0x79 => Key::y,
            0x7a => Key::z,
            0x7b => Key::LeftBrace,
            0x7c => Key::Bar,
            0x7d => Key::RightBrace,
            0x7e => Key::Tilde,
            0xff08 => Key::Backspace,
            0xff09 => Key::Tab,
            0xff0d => Key::Enter,
            0xff13 => Key::Pause,
            0xff1b => Key::Escape,
            0xffff => Key::Delete,
            0xff51 => Key::ArrowLeft,
            0xff52 => Key::ArrowUp,
            0xff53 => Key::ArrowRight,
            0xff54 => Key::ArrowDown,
            0xff55 => Key::PgUp,
            0xff56 => Key::PgDn,
            0xff57 => Key::End,
            0xff58 => Key::Home,
            0xff63 => Key::Insert,
            0xff67 => Key::Menu,
            0xff6b => Key::Break,
            0xffaa => Key::NumMul,
            0xffab => Key::NumAdd,
            0xffad => Key::NumSub,
            0xffae => Key::NumDecimal,
            0xffaf => Key::NumDiv,
            0xffb0 => Key::Num0,
            0xffb1 => Key::Num1,
            0xffb2 => Key::Num2,
            0xffb3 => Key::Num3,
            0xffb4 => Key::Num4,
            0xffb5 => Key::Num5,
            0xffb6 => Key::Num6,
            0xffb7 => Key::Num7,
            0xffb8 => Key::Num8,
            0xffb9 => Key::Num9,
            0xffbe => Key::F1,
            0xffbf => Key::F2,
            0xffc0 => Key::F3,
            0xffc1 => Key::F4,
            0xffc2 => Key::F5,
            0xffc3 => Key::F6,
            0xffc4 => Key::F7,
            0xffc5 => Key::F8,
            0xffc6 => Key::F9,
            0xffc7 => Key::F10,
            0xffc8 => Key::F11,
            0xffc9 => Key::F12,
            _ => Key::Other,
    }
}

/// What a key press with the given keysym is reported as: the table entry,
/// with the shift transform applied exactly when Shift is held.
pub open spec fn translate_keysym_spec(sym: u32, shift: bool) -> Key {
    if shift {
        key_from_xkb_spec(sym).shifted()
    } else {
        key_from_xkb_spec(sym)
    }
}

/// Translates a keysym under the current Shift state.
pub fn translate_keysym(sym: u32, shift: bool) -> (res: Key)
    ensures
        res == translate_keysym_spec(sym, shift),
{
    let base = key_from_xkb(sym);
    if shift {
        base.shift()
    } else {
        base
    }
}

/// Whether a portable key is one of the lowercase ASCII letter keys.
pub open spec fn is_lower_letter(key: Key) -> bool {
    match key {
        Key::a | Key::b | Key::c | Key::d | Key::e | Key::f | Key::g | Key::h | Key::i
        | Key::j | Key::k | Key::l | Key::m | Key::n | Key::o | Key::p | Key::q | Key::r
        | Key::s | Key::t | Key::u | Key::v | Key::w | Key::x | Key::y | Key::z => true,
        _ => false,
    }
}

/// Whether a portable key is one of the uppercase ASCII letter keys.
pub open spec fn is_upper_letter(key: Key) -> bool {
    match key {
        Key::A | Key::B | Key::C | Key::D | Key::E | Key::F | Key::G | Key::H | Key::I
        | Key::J | Key::K | Key::L | Key::M | Key::N | Key::O | Key::P | Key::Q | Key::R
        | Key::S | Key::T | Key::U | Key::V | Key::W | Key::X | Key::Y | Key::Z => true,
        _ => false,
    }
}

/// For every ASCII letter keysym, translating with Shift held gives the
/// uppercase variant of the key translated without Shift, and translating
/// without Shift gives the lowercase base key.
pub proof fn lemma_letter_shift(sym: u32)
    requires
        0x61 <= sym <= 0x7a,
    ensures
        is_lower_letter(translate_keysym_spec(sym, false)),
        is_upper_letter(translate_keysym_spec(sym, true)),
        translate_keysym_spec(sym, true) == translate_keysym_spec(sym, false).shifted(),
        translate_keysym_spec(sym, true).unshifted() == translate_keysym_spec(sym, false),
{
}

} // verus!
