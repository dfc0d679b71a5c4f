use parslay::event::{Button, Key, Modifiers, MOD_ALT, MOD_CONTROL, MOD_SHIFT, MOD_SUPER};
use parslay::keymap::{key_from_xkb, translate_keysym};

#[test]
fn letter_keys_shift_to_uppercase() {
    // Every ASCII letter keysym: Shift gives the uppercase variant, no Shift
    // the lowercase base.
    let pairs = [
        (0x61u32, Key::a, Key::A),
        (0x62, Key::b, Key::B),
        (0x6d, Key::m, Key::M),
        (0x7a, Key::z, Key::Z),
    ];
    for (sym, lower, upper) in pairs {
        assert_eq!(translate_keysym(sym, false), lower);
        assert_eq!(translate_keysym(sym, true), upper);
        assert_eq!(lower.shift(), upper);
        assert_eq!(upper.unshift(), lower);
    }
    for sym in 0x61u32..=0x7a {
        let base = translate_keysym(sym, false);
        let shifted = translate_keysym(sym, true);
        assert_eq!(base.shift(), shifted);
        assert_eq!(shifted.unshift(), base);
        assert_ne!(base, shifted);
    }
}

#[test]
fn symbol_keys_shift_to_shifted_glyph() {
    assert_eq!(Key::Key1.shift(), Key::Exclam);
    assert_eq!(Key::Key2.shift(), Key::At);
    assert_eq!(Key::Slash.shift(), Key::Question);
    assert_eq!(Key::Backtick.shift(), Key::Tilde);
    assert_eq!(Key::Exclam.unshift(), Key::Key1);
    assert_eq!(Key::Question.unshift(), Key::Slash);
    // Keys outside the shift table are unchanged.
    assert_eq!(Key::Escape.shift(), Key::Escape);
    assert_eq!(Key::F5.shift(), Key::F5);
    assert_eq!(Key::Enter.unshift(), Key::Enter);
}

#[test]
fn keysym_table_lookups() {
    assert_eq!(key_from_xkb(0x20), Key::Space);
    assert_eq!(key_from_xkb(0x41), Key::A);
    assert_eq!(key_from_xkb(0x61), Key::a);
    assert_eq!(key_from_xkb(0x39), Key::Key9);
    assert_eq!(key_from_xkb(0xff1b), Key::Escape);
    assert_eq!(key_from_xkb(0xff0d), Key::Enter);
    assert_eq!(key_from_xkb(0xffc9), Key::F12);
    assert_eq!(key_from_xkb(0xffb7), Key::Num7);
    assert_eq!(key_from_xkb(0xdead), Key::Other);
}

#[test]
fn key_text_values() {
    assert_eq!(Key::a.text(), "a");
    assert_eq!(Key::Z.text(), "Z");
    assert_eq!(Key::Escape.text(), "\x1b");
    assert_eq!(Key::Enter.text(), "\n");
    assert_eq!(Key::Space.text(), " ");
    assert_eq!(Key::NumberSign.text(), "#");
    assert_eq!(Key::Home.text(), "Home");
    assert_eq!(Key::F1.text(), "");
    assert_eq!(Key::Other.text(), "");
}

#[test]
fn button_code_table() {
    assert_eq!(Button::from_code(1), Button::Left);
    assert_eq!(Button::from_code(2), Button::Middle);
    assert_eq!(Button::from_code(3), Button::Right);
    assert_eq!(Button::from_code(4), Button::Forward);
    assert_eq!(Button::from_code(5), Button::Back);
    assert_eq!(Button::from_code(0), Button::Other);
    assert_eq!(Button::from_code(99), Button::Other);
}

#[test]
fn modifier_masks() {
    let m = Modifiers::from_flags(true, false, true, false);
    assert_eq!(m.0, MOD_SHIFT | MOD_ALT);
    assert!(m.contains(MOD_SHIFT));
    assert!(!m.contains(MOD_CONTROL));
    let all = m.union(Modifiers::from_flags(false, true, false, true));
    assert_eq!(all.0, MOD_SHIFT | MOD_CONTROL | MOD_ALT | MOD_SUPER);
    assert_eq!(all.intersect(Modifiers(MOD_SHIFT)).0, MOD_SHIFT);
    assert_eq!(Modifiers::none().0, 0);
    assert_eq!(all.intersect(all.complement()).0, 0);
}
