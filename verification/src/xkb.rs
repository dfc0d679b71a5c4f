//! The keymap queries the Wayland backend needs, through the keymap library.
//!
//! The compositor hands the client a keymap; the library compiled from it
//! answers which keysym a keycode produces under the current modifier state,
//! and which named modifiers are active. Those two queries are the only
//! outside calls this core's key handling makes: what comes back is carried
//! into the key translation as plain values.

use vstd::prelude::*;

use crate::event::Event;
use crate::event::Modifiers;
use crate::event::RawEvent;
use crate::event::WindowEvent;
use crate::keymap;
use crate::wayland::WaylandConn;

verus! {

#[verifier::external_type_specification]
#[verifier::external_body]
pub struct ExXkbState(xkbcommon_rs::State);

/// Offset between the transport's key codes and the keymap's code space.
pub const KEYCODE_OFFSET: u32 = 8;

/// Relies on xkbcommon_rs::State::key_get_one_sym: the keysym the keymap
/// assigns to this keycode under the current modifier state, or none when
/// the key does not produce exactly one.
#[verifier::external_body]
fn key_get_sym(state: &xkbcommon_rs::State, keycode: u32) -> (res: Option<u32>) {
    state.key_get_one_sym(keycode).map(|sym| sym.raw())
}

/// Relies on xkbcommon_rs::State::mod_name_is_active with the effective
/// modifier component: whether the named modifier is active; a name the
/// keymap does not know counts as inactive.
#[verifier::external_body]
fn mod_active(state: &xkbcommon_rs::State, name: &str) -> (res: bool) {
    state.mod_name_is_active(name, xkbcommon_rs::xkb_state::StateComponent::MODS_EFFECTIVE)
        .unwrap_or(false)
}

/// Handles one native key notification: the keycode is offset into the
/// keymap's code space, the keysym and the four modifier states are queried
/// from the keymap, and the portable key event they translate to is queued
/// on the connection. A key the keymap gives no single keysym for is
/// dropped. Whatever the keymap answers, at most one event is queued, built
/// from the answers alone by the key translation tables.
pub fn on_native_key(
    conn: &mut WaylandConn,
    state: &xkbcommon_rs::State,
    keycode: u32,
    pressed: bool,
) -> (queued: bool)
    requires
        old(conn).wf(),
        keycode <= u32::MAX - KEYCODE_OFFSET,
    ensures
        final(conn).wf(),
        final(conn).registry.windows@ == old(conn).registry.windows@,
        final(conn).running == old(conn).running,
        final(conn).pending == old(conn).pending,
        !queued ==> *final(conn) == *old(conn),
        queued ==> exists|sym: u32, shift: bool, control: bool, alt: bool, superkey: bool|
            final(conn).events@ == old(conn).events@.push(
                RawEvent {
                    window: old(conn).pointer_window,
                    event: Event::Window(
                        if pressed {
                            WindowEvent::KeyPress(
                                Modifiers::from_flags_spec(shift, control, alt, superkey),
                                keymap::translate_keysym_spec(sym, shift),
                            )
                        } else {
                            WindowEvent::KeyRelease(
                                Modifiers::from_flags_spec(shift, control, alt, superkey),
                                keymap::translate_keysym_spec(sym, shift),
                            )
                        },
                    ),
                },
            ),
{
    let sym = match key_get_sym(state, keycode + KEYCODE_OFFSET) {
        Some(sym) => sym,
        None => {
            return false;
        },
    };
    let shift = mod_active(state, "Shift");
    let control = mod_active(state, "Control");
    let alt = mod_active(state, "Mod1");
    let superkey = mod_active(state, "Mod4");
    conn.on_key(sym, pressed, shift, control, alt, superkey);
    proof {
        assert(conn.events@ == old(conn).events@.push(
            RawEvent {
                window: old(conn).pointer_window,
                event: Event::Window(
                    if pressed {
                        WindowEvent::KeyPress(
                            Modifiers::from_flags_spec(shift, control, alt, superkey),
                            keymap::translate_keysym_spec(sym, shift),
                        )
                    } else {
                        WindowEvent::KeyRelease(
                            Modifiers::from_flags_spec(shift, control, alt, superkey),
                            keymap::translate_keysym_spec(sym, shift),
                        )
                    },
                ),
            },
        ));
    }
    true
}

} // verus!
