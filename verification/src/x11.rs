//! The X11 backend, as a state machine over plain values.
//!
//! X11 follows an atom/request-reply model: the connection fetches a table of
//! named atoms and the keyboard mapping once at startup, and the caller hands
//! each native event here together with any property values it had to fetch
//! for it. The server decorates windows, so pointer coordinates need no
//! title-bar normalization on this backend.

use vstd::prelude::*;

use crate::error::Error;
use crate::event::Button;
use crate::event::Event;
use crate::event::Modifiers;
use crate::event::RawEvent;
use crate::event::WidgetEvent;
use crate::event::WindowEvent;
use crate::event::WindowState;
use crate::keymap;
use crate::registry::find_window;
use crate::registry::lemma_find_window_found;
use crate::registry::lemma_titlebar_after_remove;
use crate::registry::Registry;
use crate::registry::WindowRecord;

verus! {

/// Bit a pressed Shift key sets in a native key-event state mask.
pub const XK_SHIFT_MASK: u16 = 0x0001;
/// Bit a pressed Control key sets in a native key-event state mask.
pub const XK_CONTROL_MASK: u16 = 0x0004;
/// Bit the first modifier group (Alt) sets in a native state mask.
pub const XK_MOD1_MASK: u16 = 0x0008;
/// Bit the fourth modifier group (Super) sets in a native state mask.
pub const XK_MOD4_MASK: u16 = 0x0040;

/// Native keycodes start here; the keyboard mapping is fetched from this
/// code on.
pub const MIN_KEYCODE: u8 = 8;

/// The atoms the connection interned at startup, by name.
#[derive(Clone, Copy, Debug, PartialEq, Eq, Structural)]
pub struct X11Atoms {
    pub wm_delete_window: u32,
    pub net_wm_state: u32,
    pub net_wm_state_maximized_vert: u32,
    pub net_wm_state_maximized_horz: u32,
    pub net_wm_state_fullscreen: u32,
    pub net_wm_state_focused: u32,
}

/// One native notification, with the property values the caller fetched for
/// it: a configure notification carries the window-state atoms read back from
/// the server.
#[derive(Clone, Debug)]
pub enum X11Event {
    ClientMessage { window: u64, format: u8, data0: u32 },
    KeyPress { window: u64, detail: u8, state: u16 },
    KeyRelease { window: u64, detail: u8, state: u16 },
    ButtonPress { window: u64, detail: u8, x: i16, y: i16 },
    ButtonRelease { window: u64, detail: u8, x: i16, y: i16 },
    Motion { window: u64, x: i16, y: i16 },
    Configure { window: u64, width: u16, height: u16, atoms: Vec<u32> },
    ProtocolError,
    Other,
}

/// Whether one of the fetched property atoms equals `atom`.
pub open spec fn has_atom(atoms: Seq<u32>, atom: u32) -> bool {
    exists|i: int| 0 <= i < atoms.len() && atoms[i] == atom
}

fn contains_atom(atoms: &Vec<u32>, atom: u32) -> (res: bool)
    ensures
        res == has_atom(atoms@, atom),
{
    let n = atoms.len();
    let mut i: usize = 0;
    while i < n
        invariant
            n == atoms@.len(),
            i <= n,
            forall|j: int| 0 <= j < i as int ==> atoms@[j] != atom,
        decreases n - i,
    {
        if atoms[i] == atom {
            proof {
                assert(atoms@[i as int] == atom);
            }
            return true;
        }
        i = i + 1;
    }
    false
}

/// The modifier mask a native key-event state mask translates to: each of
/// the four portable modifiers is tested independently and OR-ed in.
pub open spec fn mods_from_state_spec(state: u16) -> Modifiers {
    Modifiers::from_flags_spec(
        state & XK_SHIFT_MASK == XK_SHIFT_MASK,
        state & XK_CONTROL_MASK == XK_CONTROL_MASK,
        state & XK_MOD1_MASK == XK_MOD1_MASK,
        state & XK_MOD4_MASK == XK_MOD4_MASK,
    )
}

/// Builds the portable modifier mask out of a native state mask.
pub fn mods_from_state(state: u16) -> (res: Modifiers)
    ensures
        res == mods_from_state_spec(state),
{
    Modifiers::from_flags(
        state & XK_SHIFT_MASK == XK_SHIFT_MASK,
        state & XK_CONTROL_MASK == XK_CONTROL_MASK,
        state & XK_MOD1_MASK == XK_MOD1_MASK,
        state & XK_MOD4_MASK == XK_MOD4_MASK,
    )
}

/// The keysym the fetched keyboard mapping assigns to a native keycode; a
/// code outside the mapping has none the table knows, and translates to no
/// key.
pub open spec fn keysym_of(keymap: Seq<u32>, detail: u8) -> u32 {
    if MIN_KEYCODE <= detail && (detail - MIN_KEYCODE) < keymap.len() {
        keymap[detail as int - MIN_KEYCODE as int]
    } else {
        0u32
    }
}

/// The one window state a configure notification derives from the fetched
/// window-state atoms, by the priority order maximized, then fullscreen,
/// then activated; none when no recognized state is announced.
pub open spec fn x11_derived_state(maximized: bool, fullscreen: bool, activated: bool) -> Option<
    WindowState,
> {
    if maximized {
        Some(WindowState::Maximized)
    } else if fullscreen {
        Some(WindowState::Fullscreen)
    } else if activated {
        Some(WindowState::Activated)
    } else {
        None
    }
}

/// The state-change event a configure notification emits: the derived state,
/// only when it differs from the state recorded for the window; a derived
/// state already recorded emits nothing.
pub open spec fn x11_state_emitted(
    recorded: WindowState,
    maximized: bool,
    fullscreen: bool,
    activated: bool,
) -> Option<WindowState> {
    match x11_derived_state(maximized, fullscreen, activated) {
        Some(st) => if st != recorded {
            Some(st)
        } else {
            None
        },
        None => None,
    }
}

/// Two consecutive configure notifications deriving the same window state
/// produce exactly one state-change event: the first records the state, so
/// the second emits none.
pub proof fn lemma_x11_state_coalescing(
    recorded: WindowState,
    st: WindowState,
    first: (bool, bool, bool),
    second: (bool, bool, bool),
)
    requires
        x11_derived_state(first.0, first.1, first.2) == Some(st),
        x11_derived_state(second.0, second.1, second.2) == Some(st),
        recorded != st,
    ensures
        x11_state_emitted(recorded, first.0, first.1, first.2) == Some(st),
        x11_state_emitted(st, second.0, second.1, second.2) is None,
{
}

/// One X11 connection: the interned atoms, the fetched keyboard mapping, and
/// the registry of live windows.
pub struct X11Conn {
    pub registry: Registry,
    pub atoms: X11Atoms,
    /// One keysym per keycode from `MIN_KEYCODE` on, fetched at startup.
    pub keymap: Vec<u32>,
}

impl X11Conn {
    pub open spec fn wf(self) -> bool {
        &&& self.registry.wf()
        &&& forall|i: int|
            0 <= i < self.registry.windows@.len() ==> (#[trigger] self.registry.windows@[i]).titlebar
                == 0
    }

    /// A fresh connection around the interned atoms and fetched mapping.
    pub fn new(atoms: X11Atoms, keymap: Vec<u32>) -> (res: X11Conn)
        ensures
            res.wf(),
            res.registry.windows@.len() == 0,
            res.atoms == atoms,
            res.keymap@ == keymap@,
    {
        X11Conn { registry: Registry::new(), atoms, keymap }
    }

    /// Creates a window record under a fresh id; the caller creates the
    /// native window for it. X11 windows carry no client-drawn title bar.
    pub fn create_window(&mut self, width: u32, height: u32) -> (id: u64)
        requires
            old(self).wf(),
            old(self).registry.ids_below_max(),
        ensures
            final(self).wf(),
            final(self).registry.has_window(id),
            !old(self).registry.has_window(id),
            final(self).registry.windows@ == old(self).registry.windows@.push(
                (WindowRecord {
                    id,
                    width,
                    height,
                    buf_width: width,
                    buf_height: height,
                    state: WindowState::Suspended,
                    titlebar: 0,
                }),
            ),
            final(self).atoms == old(self).atoms,
            final(self).keymap@ == old(self).keymap@,
    {
        self.registry.insert_new(width, height, 0)
    }

    /// The keysym of a native keycode, out of the fetched mapping.
    fn keysym(&self, detail: u8) -> (res: u32)
        ensures
            res == keysym_of(self.keymap@, detail),
    {
        if detail >= MIN_KEYCODE && ((detail - MIN_KEYCODE) as usize) < self.keymap.len() {
            self.keymap[(detail - MIN_KEYCODE) as usize]
        } else {
            0
        }
    }

    /// Translates exactly one native notification into a portable event and
    /// applies its side effect on the registry.
    ///
    /// A delete-window client message removes the addressed window; removing
    /// the last one yields `Ok(None)`, which terminates the dispatch loop. A
    /// key event is translated through the fetched mapping with the shift
    /// transform applied exactly when Shift is held. A configure notification
    /// derives at most one state change (recorded per window, so repeats are
    /// coalesced away) or, failing that, one resize, ignoring transient zero
    /// sizes. A native protocol error is fatal. Every notification addressing
    /// an id no live window has, and every untranslated notification, yields
    /// the unknown event, never an error.
    pub fn handle_event(&mut self, ev: &X11Event) -> (res: Result<Option<RawEvent>, Error>)
        requires
            old(self).wf(),
        ensures
            final(self).wf(),
            final(self).atoms == old(self).atoms,
            final(self).keymap@ == old(self).keymap@,
            match *ev {
                X11Event::ClientMessage { window, format, data0 } => {
                    if format == 32 && data0 == old(self).atoms.wm_delete_window {
                        &&& !final(self).registry.has_window(window)
                        &&& (old(self).registry.has_window(window)
                            ==> final(self).registry.windows@ == old(
                            self,
                        ).registry.windows@.remove(old(self).registry.index_of(window)))
                        &&& (!old(self).registry.has_window(window)
                            ==> final(self).registry.windows@ == old(self).registry.windows@)
                        &&& (final(self).registry.windows@.len() == 0 ==> res == Ok::<
                            Option<RawEvent>,
                            Error,
                        >(None))
                        &&& (final(self).registry.windows@.len() != 0 ==> res == Ok::<
                            Option<RawEvent>,
                            Error,
                        >(Some(RawEvent { window: 0, event: Event::Unknown })))
                    } else {
                        final(self).registry.windows@ == old(self).registry.windows@ && res == Ok::<
                            Option<RawEvent>,
                            Error,
                        >(Some(RawEvent { window: 0, event: Event::Unknown }))
                    }
                },
                X11Event::KeyPress { window, detail, state } => {
                    &&& final(self).registry.windows@ == old(self).registry.windows@
                    &&& res == Ok::<Option<RawEvent>, Error>(
                        Some(
                            RawEvent {
                                window,
                                event: Event::Window(
                                    WindowEvent::KeyPress(
                                        mods_from_state_spec(state),
                                        keymap::translate_keysym_spec(
                                            keysym_of(old(self).keymap@, detail),
                                            state & XK_SHIFT_MASK == XK_SHIFT_MASK,
                                        ),
                                    ),
                                ),
                            },
                        ),
                    )
                },
                X11Event::KeyRelease { window, detail, state } => {
                    &&& final(self).registry.windows@ == old(self).registry.windows@
                    &&& res == Ok::<Option<RawEvent>, Error>(
                        Some(
                            RawEvent {
                                window,
                                event: Event::Window(
                                    WindowEvent::KeyRelease(
                                        mods_from_state_spec(state),
                                        keymap::translate_keysym_spec(
                                            keysym_of(old(self).keymap@, detail),
                                            state & XK_SHIFT_MASK == XK_SHIFT_MASK,
                                        ),
                                    ),
                                ),
                            },
                        ),
                    )
                },
                X11Event::ButtonPress { window, detail, x, y } => {
                    &&& final(self).registry.windows@ == old(self).registry.windows@
                    &&& res == Ok::<Option<RawEvent>, Error>(
                        Some(
                            RawEvent {
                                window,
                                event: Event::Widget(
                                    WidgetEvent::ButtonPress(
                                        Button::from_code_spec(detail),
                                        x as i32,
                                        y as i32,
                                    ),
                                ),
                            },
                        ),
                    )
                },
                X11Event::ButtonRelease { window, detail, x, y } => {
                    &&& final(self).registry.windows@ == old(self).registry.windows@
                    &&& res == Ok::<Option<RawEvent>, Error>(
                        Some(
                            RawEvent {
                                window,
                                event: Event::Widget(
                                    WidgetEvent::ButtonRelease(
                                        Button::from_code_spec(detail),
                                        x as i32,
                                        y as i32,
                                    ),
                                ),
                            },
                        ),
                    )
                },
                X11Event::Motion { window, x, y } => {
                    &&& final(self).registry.windows@ == old(self).registry.windows@
                    &&& res == Ok::<Option<RawEvent>, Error>(
                        Some(
                            RawEvent {
                                window,
                                event: Event::Widget(WidgetEvent::Move(x as i32, y as i32)),
                            },
                        ),
                    )
                },
                X11Event::Configure { window, width, height, ref atoms } => {
                    if !old(self).registry.has_window(window) {
                        final(self).registry.windows@ == old(self).registry.windows@ && res
                            == Ok::<Option<RawEvent>, Error>(
                            Some(RawEvent { window: 0, event: Event::Unknown }),
                        )
                    } else {
                        let rec = old(self).registry.record_of(window);
                        let idx = old(self).registry.index_of(window);
                        let maximized = has_atom(
                            atoms@,
                            old(self).atoms.net_wm_state_maximized_horz,
                        ) && has_atom(atoms@, old(self).atoms.net_wm_state_maximized_vert);
                        let fullscreen = has_atom(atoms@, old(self).atoms.net_wm_state_fullscreen);
                        let activated = has_atom(atoms@, old(self).atoms.net_wm_state_focused);
                        match x11_state_emitted(rec.state, maximized, fullscreen, activated) {
                            Some(st) => {
                                &&& final(self).registry.windows@ == old(
                                    self,
                                ).registry.windows@.update(idx, (WindowRecord { state: st, ..rec }))
                                &&& res == Ok::<Option<RawEvent>, Error>(
                                    Some(
                                        RawEvent {
                                            window,
                                            event: Event::Window(WindowEvent::StateChange(st)),
                                        },
                                    ),
                                )
                            },
                            None => {
                                if (width as u32 != rec.width || height as u32 != rec.height)
                                    && width != 0 && height != 0 {
                                    &&& final(self).registry.windows@ == old(
                                        self,
                                    ).registry.windows@.update(
                                        idx,
                                        (WindowRecord {
                                            width: width as u32,
                                            height: height as u32,
                                            buf_width: width as u32,
                                            buf_height: (height as u32 + rec.titlebar) as u32,
                                            ..rec
                                        }),
                                    )
                                    &&& res == Ok::<Option<RawEvent>, Error>(
                                        Some(
                                            RawEvent {
                                                window,
                                                event: Event::Window(
                                                    WindowEvent::Resize(width as u32, height as u32),
                                                ),
                                            },
                                        ),
                                    )
                                } else {
                                    final(self).registry.windows@ == old(self).registry.windows@
                                        && res == Ok::<Option<RawEvent>, Error>(
                                        Some(RawEvent { window: 0, event: Event::Unknown }),
                                    )
                                }
                            },
                        }
                    }
                },
                X11Event::ProtocolError => {
                    final(self).registry.windows@ == old(self).registry.windows@ && res == Err::<
                        Option<RawEvent>,
                        Error,
                    >(Error::Protocol)
                },
                X11Event::Other => {
                    final(self).registry.windows@ == old(self).registry.windows@ && res == Ok::<
                        Option<RawEvent>,
                        Error,
                    >(Some(RawEvent { window: 0, event: Event::Unknown }))
                },
            },
    {
        let unknown: Result<Option<RawEvent>, Error> = Ok(
            Some(RawEvent { window: 0, event: Event::Unknown }),
        );
        match ev {
            X11Event::ClientMessage { window, format, data0 } => {
                if *format == 32 && *data0 == self.atoms.wm_delete_window {
                    let ghost pre = self.registry.windows@;
                    self.registry.remove(*window);
                    proof {
                        if find_window(pre, *window, 0) >= 0 {
                            lemma_find_window_found(pre, *window, 0);
                            lemma_titlebar_after_remove(
                                pre,
                                self.registry.windows@,
                                find_window(pre, *window, 0),
                                0,
                            );
                        }
                    }
                    if self.registry.is_empty() {
                        return Ok(None);
                    }
                }
                unknown
            },
            X11Event::KeyPress { window, detail, state } => {
                let sym = self.keysym(*detail);
                let shift = *state & XK_SHIFT_MASK == XK_SHIFT_MASK;
                let mods = mods_from_state(*state);
                let key = keymap::translate_keysym(sym, shift);
                Ok(
                    Some(
                        RawEvent {
                            window: *window,
                            event: Event::Window(WindowEvent::KeyPress(mods, key)),
                        },
                    ),
                )
            },
            X11Event::KeyRelease { window, detail, state } => {
                let sym = self.keysym(*detail);
                let shift = *state & XK_SHIFT_MASK == XK_SHIFT_MASK;
                let mods = mods_from_state(*state);
                let key = keymap::translate_keysym(sym, shift);
                Ok(
                    Some(
                        RawEvent {
                            window: *window,
                            event: Event::Window(WindowEvent::KeyRelease(mods, key)),
                        },
                    ),
                )
            },
            X11Event::ButtonPress { window, detail, x, y } => {
                Ok(
                    Some(
                        RawEvent {
                            window: *window,
                            event: Event::Widget(
                                WidgetEvent::ButtonPress(
                                    Button::from_code(*detail),
                                    *x as i32,
                                    *y as i32,
                                ),
                            ),
                        },
                    ),
                )
            },
            X11Event::ButtonRelease { window, detail, x, y } => {
                Ok(
                    Some(
                        RawEvent {
                            window: *window,
                            event: Event::Widget(
                                WidgetEvent::ButtonRelease(
                                    Button::from_code(*detail),
                                    *x as i32,
                                    *y as i32,
                                ),
                            ),
                        },
                    ),
                )
            },
            X11Event::Motion { window, x, y } => {
                Ok(
                    Some(
                        RawEvent {
                            window: *window,
                            event: Event::Widget(WidgetEvent::Move(*x as i32, *y as i32)),
                        },
                    ),
                )
            },
            X11Event::Configure { window, width, height, atoms } => {
                let idx = match self.registry.find(*window) {
                    Some(i) => i,
                    None => {
                        return unknown;
                    },
                };
                let rec = self.registry.windows[idx];
                let maximized = contains_atom(atoms, self.atoms.net_wm_state_maximized_horz)
                    && contains_atom(atoms, self.atoms.net_wm_state_maximized_vert);
                let fullscreen = contains_atom(atoms, self.atoms.net_wm_state_fullscreen);
                let activated = contains_atom(atoms, self.atoms.net_wm_state_focused);
                let derived = if maximized {
                    Some(WindowState::Maximized)
                } else if fullscreen {
                    Some(WindowState::Fullscreen)
                } else if activated {
                    Some(WindowState::Activated)
                } else {
                    None
                };
                let emitted = match derived {
                    Some(st) => if st != rec.state {
                        Some(st)
                    } else {
                        None
                    },
                    None => None,
                };
                if let Some(st) = emitted {
                    let mut updated = rec;
                    updated.state = st;
                    self.registry.update_at(idx, updated);
                    Ok(
                        Some(
                            RawEvent {
                                window: *window,
                                event: Event::Window(WindowEvent::StateChange(st)),
                            },
                        ),
                    )
                } else if (*width as u32 != rec.width || *height as u32 != rec.height) && *width
                    != 0 && *height != 0 {
                    let mut updated = rec;
                    updated.resize(*width as u32, *height as u32);
                    self.registry.update_at(idx, updated);
                    Ok(
                        Some(
                            RawEvent {
                                window: *window,
                                event: Event::Window(
                                    WindowEvent::Resize(*width as u32, *height as u32),
                                ),
                            },
                        ),
                    )
                } else {
                    unknown
                }
            },
            X11Event::ProtocolError => Err(Error::Protocol),
            X11Event::Other => unknown,
        }
    }
}

/// A picture format the render extension advertises; the fields the ARGB32
/// selection reads.
#[derive(Clone, Copy, Debug, PartialEq, Eq, Structural)]
pub struct PictFormat {
    pub id: u32,
    pub direct: bool,
    pub depth: u8,
    pub red_shift: u16,
    pub red_mask: u16,
    pub green_shift: u16,
    pub green_mask: u16,
    pub blue_shift: u16,
    pub blue_mask: u16,
    pub alpha_shift: u16,
    pub alpha_mask: u16,
}

/// Whether a format is the standard 32-bit direct ARGB layout.
pub open spec fn is_argb32(f: PictFormat) -> bool {
    &&& f.direct
    &&& f.depth == 32
    &&& f.red_shift == 16
    &&& f.red_mask == 0xff
    &&& f.green_shift == 8
    &&& f.green_mask == 0xff
    &&& f.blue_shift == 0
    &&& f.blue_mask == 0xff
    &&& f.alpha_shift == 24
    &&& f.alpha_mask == 0xff
}

/// Picks the first advertised format with the standard 32-bit direct ARGB
/// layout; `None` exactly when the server advertises none, which the caller
/// treats as fatal.
pub fn find_argb_format(formats: &Vec<PictFormat>) -> (res: Option<u32>)
    ensures
        res matches Some(id) ==> exists|i: int|
            0 <= i < formats@.len() && is_argb32(#[trigger] formats@[i]) && formats@[i].id == id,
        res is None ==> forall|i: int| 0 <= i < formats@.len() ==> !is_argb32(#[trigger] formats@[i]),
{
    let n = formats.len();
    let mut i: usize = 0;
    while i < n
        invariant
            n == formats@.len(),
            i <= n,
            forall|j: int| 0 <= j < i as int ==> !is_argb32(#[trigger] formats@[j]),
        decreases n - i,
    {
        let f = formats[i];
        if f.direct && f.depth == 32 && f.red_shift == 16 && f.red_mask == 0xff && f.green_shift
            == 8 && f.green_mask == 0xff && f.blue_shift == 0 && f.blue_mask == 0xff
            && f.alpha_shift == 24 && f.alpha_mask == 0xff {
            proof {
                assert(is_argb32(formats@[i as int]));
            }
            return Some(f.id);
        }
        i = i + 1;
    }
    None
}

} // verus!
