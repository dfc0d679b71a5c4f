//! The Wayland backend, as a state machine over plain values.
//!
//! The compositor talks through an asynchronous object registry whose
//! listeners deliver notifications; the transport itself (socket reads,
//! proxy calls) lives outside this core. Each notification is handed to one
//! of the `on_*` methods here, which updates the connection state, queues
//! portable events, and returns the native requests the caller must issue.
//! Windows draw their own title bar, so pointer coordinates are normalized
//! against its height before a widget event is built.

use vstd::prelude::*;

use crate::cursor::CursorManager;
use crate::cursor::CursorType;
use crate::cursor::Hotspot;
use crate::event::Button;
use crate::event::Event;
use crate::event::Modifiers;
use crate::event::RawEvent;
use crate::event::WidgetEvent;
use crate::event::WindowEvent;
use crate::event::WindowState;
use crate::keymap;
use crate::registry::find_window;
use crate::registry::lemma_find_window_found;
use crate::registry::lemma_titlebar_after_remove;
use crate::registry::Registry;
use crate::registry::WindowRecord;

verus! {

/// Height in pixels of the client-drawn title bar.
pub const TITLEBAR_HEIGHT: u32 = 32;

/// Which edge an interactive resize starts from.
#[derive(Clone, Copy, Debug, PartialEq, Eq, Structural)]
pub enum ResizeEdge {
    Top,
    Bottom,
    Left,
    Right,
    TopLeft,
    TopRight,
    BottomLeft,
    BottomRight,
}

/// A native request the caller must issue against the compositor.
#[derive(Clone, Copy, Debug, PartialEq, Eq, Structural)]
pub enum WlAction {
    /// Attach the named cursor shape to the pointer, hotspot-adjusted.
    CursorChange { shape: CursorType, hotspot: Hotspot, serial: u32 },
    /// Ask the compositor to start an interactive resize.
    StartResize { window: u64, serial: u32, edge: ResizeEdge },
    /// Ask the compositor to start an interactive move.
    StartMove { window: u64, serial: u32 },
    /// Repaint the title bar, pressed or released.
    RedrawTitlebar { window: u64, pressed: bool },
    /// Ask the compositor to minimize the window.
    Minimize { window: u64 },
    /// Destroy the window's native surface.
    DestroySurface { window: u64 },
}

/// The portable Wayland button-code table.
pub open spec fn button_from_wl_spec(code: u32) -> Button {
    match code {
        0x110u32 => Button::Left,
        0x111u32 => Button::Right,
        0x112u32 => Button::Middle,
        0x113u32 => Button::Forward,
        0x114u32 => Button::Back,
        _ => Button::Other,
    }
}

/// Maps a native pointer-button code to the portable button.
pub fn button_from_wl(code: u32) -> (res: Button)
    ensures
        res == button_from_wl_spec(code),
{
    match code {
        0x110 => Button::Left,
        0x111 => Button::Right,
        0x112 => Button::Middle,
        0x113 => Button::Forward,
        0x114 => Button::Back,
        _ => Button::Other,
    }
}

/// Which title-bar button a pointer position lies on, for a window of the
/// given width: close, minimize and maximize sit right-aligned in the bar.
#[derive(Clone, Copy, Debug, PartialEq, Eq, Structural)]
pub enum TitlebarHit {
    Close,
    Minimize,
    Maximize,
    Elsewhere,
}

/// The title-bar button under `(x, y)` in a bar of the given width.
pub open spec fn titlebar_hit_spec(width: u32, x: int, y: int) -> TitlebarHit {
    if !(4 < y && y < TITLEBAR_HEIGHT - 4) {
        TitlebarHit::Elsewhere
    } else if width - 28 < x && x < width - 4 {
        TitlebarHit::Close
    } else if width - 60 < x && x < width - 36 {
        TitlebarHit::Minimize
    } else if width - 92 < x && x < width - 68 {
        TitlebarHit::Maximize
    } else {
        TitlebarHit::Elsewhere
    }
}

/// Hit-tests the title-bar buttons.
pub fn titlebar_hit(width: u32, x: i32, y: i32) -> (res: TitlebarHit)
    ensures
        res == titlebar_hit_spec(width, x as int, y as int),
{
    let w = width as i64;
    let x = x as i64;
    let y = y as i64;
    if !(4 < y && y < TITLEBAR_HEIGHT as i64 - 4) {
        TitlebarHit::Elsewhere
    } else if w - 28 < x && x < w - 4 {
        TitlebarHit::Close
    } else if w - 60 < x && x < w - 36 {
        TitlebarHit::Minimize
    } else if w - 92 < x && x < w - 68 {
        TitlebarHit::Maximize
    } else {
        TitlebarHit::Elsewhere
    }
}

/// The resize arrow for a pointer within 5 pixels of a surface edge, for a
/// surface of the given client size (the title bar sits above the client
/// area); `Arrow` away from every edge.
pub open spec fn resize_edge_shape_spec(width: u32, height: u32, x: int, y: int) -> CursorType {
    let top = y < 5;
    let left = x < 5;
    let right = x > width - 5;
    let bottom = y > height + TITLEBAR_HEIGHT - 5;
    if top && left {
        CursorType::NWResize
    } else if top && right {
        CursorType::NEResize
    } else if top {
        CursorType::NResize
    } else if bottom && left {
        CursorType::SWResize
    } else if bottom && right {
        CursorType::SEResize
    } else if bottom {
        CursorType::SResize
    } else if left {
        CursorType::WResize
    } else if right {
        CursorType::EResize
    } else {
        CursorType::Arrow
    }
}

/// Picks the resize arrow matching the surface edges a position is near.
pub fn resize_edge_shape(width: u32, height: u32, x: u32, y: u32) -> (res: CursorType)
    ensures
        res == resize_edge_shape_spec(width, height, x as int, y as int),
{
    let top = y < 5;
    let left = x < 5;
    let right = x as i64 > width as i64 - 5;
    let bottom = y as i64 > height as i64 + TITLEBAR_HEIGHT as i64 - 5;
    if top && left {
        CursorType::NWResize
    } else if top && right {
        CursorType::NEResize
    } else if top {
        CursorType::NResize
    } else if bottom && left {
        CursorType::SWResize
    } else if bottom && right {
        CursorType::SEResize
    } else if bottom {
        CursorType::SResize
    } else if left {
        CursorType::WResize
    } else if right {
        CursorType::EResize
    } else {
        CursorType::Arrow
    }
}

/// The interactive-resize edge a resize arrow stands for.
pub fn resize_edge_of(shape: CursorType) -> (res: Option<ResizeEdge>)
    ensures
        res == resize_edge_of_spec(shape),
{
    match shape {
        CursorType::NResize => Some(ResizeEdge::Top),
        CursorType::NEResize => Some(ResizeEdge::TopRight),
        CursorType::EResize => Some(ResizeEdge::Right),
        CursorType::SEResize => Some(ResizeEdge::BottomRight),
        CursorType::SResize => Some(ResizeEdge::Bottom),
        CursorType::SWResize => Some(ResizeEdge::BottomLeft),
        CursorType::WResize => Some(ResizeEdge::Left),
        CursorType::NWResize => Some(ResizeEdge::TopLeft),
        _ => None,
    }
}

pub open spec fn resize_edge_of_spec(shape: CursorType) -> Option<ResizeEdge> {
    match shape {
        CursorType::NResize => Some(ResizeEdge::Top),
        CursorType::NEResize => Some(ResizeEdge::TopRight),
        CursorType::EResize => Some(ResizeEdge::Right),
        CursorType::SEResize => Some(ResizeEdge::BottomRight),
        CursorType::SResize => Some(ResizeEdge::Bottom),
        CursorType::SWResize => Some(ResizeEdge::BottomLeft),
        CursorType::WResize => Some(ResizeEdge::Left),
        CursorType::NWResize => Some(ResizeEdge::TopLeft),
        _ => None,
    }
}

/// What one poll of the connection yields: the dispatch loop is finished, one
/// event is ready, or the caller must block on the transport and poll again.
#[derive(Clone, Copy, Debug, PartialEq, Eq, Structural)]
pub enum EventPoll {
    /// No windows remain: the dispatch loop terminates.
    Finished,
    /// One translated notification.
    Ready(RawEvent),
    /// The queue is empty: block on the native transport, then poll again.
    NeedDispatch,
}

/// One Wayland connection: the bound globals' listener state, the window
/// registry, the translated-event queue, and the pointer-batching state.
pub struct WaylandConn {
    pub registry: Registry,
    pub cursors: CursorManager,
    /// Translated events not yet handed to the dispatch loop; front at 0.
    pub events: Vec<RawEvent>,
    /// Cleared when the last window goes away; the poll then reports
    /// `Finished`.
    pub running: bool,
    /// Window the pointer is over, 0 when none.
    pub pointer_window: u64,
    /// The pointer event of the batch being assembled; on transports that
    /// group pointer notifications it is queued only on the frame marker,
    /// with later motion overwriting earlier motion (latest wins).
    pub pending: RawEvent,
    /// Whether the transport groups pointer notifications into frames.
    pub framed_pointer: bool,
    /// Last pointer position, in surface coordinates.
    pub last_x: i32,
    pub last_y: i32,
    /// Serial of the last pointer enter, echoed in cursor requests.
    pub serial: u32,
}

impl WaylandConn {
    pub open spec fn wf(self) -> bool {
        &&& self.registry.wf()
        &&& forall|i: int|
            0 <= i < self.registry.windows@.len() ==> (#[trigger] self.registry.windows@[i]).titlebar
                == TITLEBAR_HEIGHT
        &&& self.last_x >= 0
        &&& self.last_y >= 0
    }

    /// A fresh connection with bound globals and no windows yet.
    pub fn new(framed_pointer: bool) -> (res: WaylandConn)
        ensures
            res.wf(),
            res.registry.windows@.len() == 0,
            res.events@.len() == 0,
            res.running,
            res.framed_pointer == framed_pointer,
            res.pointer_window == 0,
            res.cursors.slots@.len() == 0,
            res.cursors.current == CursorType::Unknown,
    {
        WaylandConn {
            registry: Registry::new(),
            cursors: CursorManager::new(),
            events: Vec::new(),
            running: true,
            pointer_window: 0,
            pending: RawEvent { window: 0, event: Event::Unknown },
            framed_pointer,
            last_x: 0,
            last_y: 0,
            serial: 0,
        }
    }

    /// Creates a window record under a fresh id; the caller creates the
    /// native surface and the presentation buffer for it.
    pub fn create_window(&mut self, width: u32, height: u32) -> (id: u64)
        requires
            old(self).wf(),
            old(self).registry.ids_below_max(),
            height as int + TITLEBAR_HEIGHT as int <= u32::MAX as int,
        ensures
            final(self).wf(),
            final(self).registry.has_window(id),
            !old(self).registry.has_window(id),
            final(self).registry.windows@.len() == old(self).registry.windows@.len() + 1,
            final(self).registry.record_of(id) == (WindowRecord {
                id,
                width,
                height,
                buf_width: width,
                buf_height: (height + TITLEBAR_HEIGHT) as u32,
                state: WindowState::Suspended,
                titlebar: TITLEBAR_HEIGHT,
            }),
            final(self).events@ == old(self).events@,
            final(self).running == old(self).running,
            final(self).framed_pointer == old(self).framed_pointer,
            final(self).pointer_window == old(self).pointer_window,
            final(self).pending == old(self).pending,
            final(self).last_x == old(self).last_x,
            final(self).last_y == old(self).last_y,
            final(self).serial == old(self).serial,
            final(self).cursors.slots@ == old(self).cursors.slots@,
            final(self).cursors.current == old(self).cursors.current,
    {
        self.registry.insert_new(width, height, TITLEBAR_HEIGHT)
    }

    /// The pointer entered a window's surface. An id no live window has is
    /// silently ignored: the enter may race with an optimistic removal.
    pub fn on_pointer_enter(&mut self, window: u64, serial: u32)
        requires
            old(self).wf(),
        ensures
            final(self).wf(),
            old(self).registry.has_window(window) ==> final(self).pointer_window == window
                && final(self).serial == serial,
            !old(self).registry.has_window(window) ==> *final(self) == *old(self),
            final(self).registry.windows@ == old(self).registry.windows@,
            final(self).events@ == old(self).events@,
            final(self).running == old(self).running,
            final(self).framed_pointer == old(self).framed_pointer,
            final(self).pending == old(self).pending,
            final(self).last_x == old(self).last_x,
            final(self).last_y == old(self).last_y,
            final(self).cursors.slots@ == old(self).cursors.slots@,
            final(self).cursors.current == old(self).cursors.current,
    {
        match self.registry.find(window) {
            Some(_) => {
                self.pointer_window = window;
                self.serial = serial;
            },
            None => {},
        }
    }

    /// The pointer left the surface: forget the pointer window and fall back
    /// to the default arrow, issuing the cursor request only on a transition.
    pub fn on_pointer_leave(&mut self) -> (res: Option<WlAction>)
        requires
            old(self).wf(),
        ensures
            final(self).wf(),
            final(self).pointer_window == 0,
            final(self).cursors.current == old(self).cursors.next_current(CursorType::Arrow),
            res is Some <==> old(self).cursors.issues_request(CursorType::Arrow),
            res matches Some(a) ==> a matches WlAction::CursorChange { shape, serial, .. }
                && shape == CursorType::Arrow && serial == old(self).serial,
            final(self).registry.windows@ == old(self).registry.windows@,
            final(self).events@ == old(self).events@,
            final(self).running == old(self).running,
            final(self).framed_pointer == old(self).framed_pointer,
            final(self).pending == old(self).pending,
            final(self).last_x == old(self).last_x,
            final(self).last_y == old(self).last_y,
            final(self).serial == old(self).serial,
            final(self).cursors.slots@ == old(self).cursors.slots@,
    {
        self.pointer_window = 0;
        match self.cursors.set_cursor(CursorType::Arrow) {
            Ok(change) => {
                if change.issue {
                    Some(
                        WlAction::CursorChange {
                            shape: CursorType::Arrow,
                            hotspot: change.hotspot,
                            serial: self.serial,
                        },
                    )
                } else {
                    None
                }
            },
            Err(_) => None,
        }
    }

    /// A keyboard key was pressed or released. The four modifier keys are
    /// queried independently and OR-ed into one mask; the keysym is taken
    /// through the lookup table, with the shift transform applied exactly
    /// when Shift is held.
    pub fn on_key(
        &mut self,
        sym: u32,
        pressed: bool,
        shift: bool,
        control: bool,
        alt: bool,
        superkey: bool,
    )
        requires
            old(self).wf(),
        ensures
            final(self).wf(),
            final(self).events@ == old(self).events@.push(
                RawEvent {
                    window: old(self).pointer_window,
                    event: Event::Window(
                        if pressed {
                            WindowEvent::KeyPress(
                                Modifiers::from_flags_spec(shift, control, alt, superkey),
                                keymap::translate_keysym_spec(sym, shift),
                            )
                        } else {
                            WindowEvent::KeyRelease(
                                Modifiers::from_flags_spec(shift, control, alt, superkey),
                                keymap::translate_keysym_spec(sym, shift),
                            )
                        },
                    ),
                },
            ),
            final(self).registry.windows@ == old(self).registry.windows@,
            final(self).running == old(self).running,
            final(self).pending == old(self).pending,
            final(self).framed_pointer == old(self).framed_pointer,
            final(self).pointer_window == old(self).pointer_window,
            final(self).last_x == old(self).last_x,
            final(self).last_y == old(self).last_y,
            final(self).serial == old(self).serial,
            final(self).cursors.slots@ == old(self).cursors.slots@,
            final(self).cursors.current == old(self).cursors.current,
    {
        let mods = Modifiers::from_flags(shift, control, alt, superkey);
        let key = keymap::translate_keysym(sym, shift);
        let ev = if pressed {
            WindowEvent::KeyPress(mods, key)
        } else {
            WindowEvent::KeyRelease(mods, key)
        };
        self.events.push(RawEvent { window: self.pointer_window, event: Event::Window(ev) });
    }

    /// The batch frame marker: on a framed pointer the assembled pointer
    /// event is queued, exactly one per batch, and the batch resets.
    pub fn on_pointer_frame(&mut self)
        requires
            old(self).wf(),
        ensures
            final(self).wf(),
            old(self).framed_pointer ==> final(self).events@ == old(self).events@.push(
                old(self).pending,
            ) && final(self).pending == (RawEvent { window: 0, event: Event::Unknown }),
            !old(self).framed_pointer ==> *final(self) == *old(self),
            final(self).registry.windows@ == old(self).registry.windows@,
            final(self).running == old(self).running,
            final(self).framed_pointer == old(self).framed_pointer,
            final(self).pointer_window == old(self).pointer_window,
            final(self).last_x == old(self).last_x,
            final(self).last_y == old(self).last_y,
            final(self).serial == old(self).serial,
            final(self).cursors.slots@ == old(self).cursors.slots@,
            final(self).cursors.current == old(self).cursors.current,
    {
        if self.framed_pointer {
            self.events.push(self.pending);
            self.pending = RawEvent { window: 0, event: Event::Unknown };
        }
    }

    /// The compositor asked the window to close: remove it optimistically;
    /// when the last window goes, the connection stops running and the next
    /// poll finishes the dispatch loop. Removal is idempotent against an id
    /// already removed.
    pub fn on_close(&mut self, window: u64)
        requires
            old(self).wf(),
        ensures
            final(self).wf(),
            !final(self).registry.has_window(window),
            final(self).running == (old(self).running
                && final(self).registry.windows@.len() != 0),
            old(self).registry.has_window(window) ==> final(self).registry.windows@ == old(
                self,
            ).registry.windows@.remove(old(self).registry.index_of(window)),
            !old(self).registry.has_window(window) ==> final(self).registry.windows@ == old(
                self,
            ).registry.windows@,
            forall|other: u64| #![auto]
                other != window ==> (final(self).registry.has_window(other)
                    <==> old(self).registry.has_window(other)),
            forall|other: u64| #![auto]
                other != window && old(self).registry.has_window(other)
                    ==> final(self).registry.record_of(other)
                    == old(self).registry.record_of(other),
            final(self).events@ == old(self).events@,
            final(self).framed_pointer == old(self).framed_pointer,
            final(self).pointer_window == old(self).pointer_window,
            final(self).pending == old(self).pending,
            final(self).last_x == old(self).last_x,
            final(self).last_y == old(self).last_y,
            final(self).serial == old(self).serial,
            final(self).cursors.slots@ == old(self).cursors.slots@,
            final(self).cursors.current == old(self).cursors.current,
    {
        let ghost pre = self.registry.windows@;
        self.registry.remove(window);
        proof {
            if find_window(pre, window, 0) >= 0 {
                lemma_find_window_found(pre, window, 0);
                lemma_titlebar_after_remove(
                    pre,
                    self.registry.windows@,
                    find_window(pre, window, 0),
                    TITLEBAR_HEIGHT,
                );
            }
        }
        if self.registry.is_empty() {
            self.running = false;
        }
    }

    /// Explicitly destroys a window: the registry forgets it and the caller
    /// must destroy the native surface. Idempotent against a removed id.
    pub fn destroy_window(&mut self, window: u64) -> (res: WlAction)
        requires
            old(self).wf(),
        ensures
            final(self).wf(),
            res == (WlAction::DestroySurface { window }),
            !final(self).registry.has_window(window),
            final(self).running == (old(self).running
                && final(self).registry.windows@.len() != 0),
            old(self).registry.has_window(window) ==> final(self).registry.windows@ == old(
                self,
            ).registry.windows@.remove(old(self).registry.index_of(window)),
            !old(self).registry.has_window(window) ==> final(self).registry.windows@ == old(
                self,
            ).registry.windows@,
            forall|other: u64| #![auto]
                other != window ==> (final(self).registry.has_window(other)
                    <==> old(self).registry.has_window(other)),
            forall|other: u64| #![auto]
                other != window && old(self).registry.has_window(other)
                    ==> final(self).registry.record_of(other)
                    == old(self).registry.record_of(other),
            final(self).events@ == old(self).events@,
            final(self).framed_pointer == old(self).framed_pointer,
            final(self).pointer_window == old(self).pointer_window,
            final(self).pending == old(self).pending,
            final(self).last_x == old(self).last_x,
            final(self).last_y == old(self).last_y,
            final(self).serial == old(self).serial,
            final(self).cursors.slots@ == old(self).cursors.slots@,
            final(self).cursors.current == old(self).cursors.current,
    {
        self.on_close(window);
        WlAction::DestroySurface { window }
    }

    /// The pointer moved to surface position `(x, y)`. The batch event
    /// becomes a widget move normalized against the title bar (latest motion
    /// wins within a batch); near a surface edge the matching resize arrow is
    /// requested, issuing a native cursor change only on a transition; and a
    /// pointer inside the title bar asks for a title-bar repaint.
    pub fn on_pointer_motion(&mut self, x: u32, y: u32) -> (res: Vec<WlAction>)
        requires
            old(self).wf(),
            x <= i32::MAX,
            y <= i32::MAX,
        ensures
            final(self).wf(),
            res@ == motion_actions(*old(self), x, y),
            final(self).last_x == x as i32,
            final(self).last_y == y as i32,
            final(self).pending == motion_pending(*old(self), x, y),
            final(self).events@ == (if old(self).framed_pointer {
                old(self).events@
            } else {
                old(self).events@.push(motion_pending(*old(self), x, y))
            }),
            final(self).registry.windows@ == old(self).registry.windows@,
            final(self).running == old(self).running,
            final(self).pointer_window == old(self).pointer_window,
            final(self).framed_pointer == old(self).framed_pointer,
            final(self).serial == old(self).serial,
            final(self).cursors.slots@ == old(self).cursors.slots@,
            final(self).cursors.current == (if old(self).registry.has_window(
                old(self).pointer_window,
            ) {
                old(self).cursors.next_current(motion_edge_shape(*old(self), x, y))
            } else {
                old(self).cursors.current
            }),
    {
        let mut actions: Vec<WlAction> = Vec::new();
        match self.registry.find(self.pointer_window) {
            Some(i) => {
                let rec = self.windows_at(i);
                let shape = resize_edge_shape(rec.width, rec.height, x, y);
                match self.cursors.set_cursor(shape) {
                    Ok(change) => {
                        if change.issue {
                            actions.push(
                                WlAction::CursorChange {
                                    shape,
                                    hotspot: change.hotspot,
                                    serial: self.serial,
                                },
                            );
                        }
                    },
                    Err(_) => {},
                }
                if self.last_y < TITLEBAR_HEIGHT as i32 {
                    actions.push(
                        WlAction::RedrawTitlebar { window: self.pointer_window, pressed: false },
                    );
                }
            },
            None => {},
        }
        self.last_x = x as i32;
        self.last_y = y as i32;
        self.pending = RawEvent {
            window: self.pointer_window,
            event: Event::Widget(WidgetEvent::Move(x as i32, (y as i32) - (TITLEBAR_HEIGHT as i32))),
        };
        if !self.framed_pointer {
            self.events.push(self.pending);
        }
        actions
    }

    /// The window record at a known registry index.
    fn windows_at(&self, i: usize) -> (res: WindowRecord)
        requires
            i < self.registry.windows@.len(),
        ensures
            res == self.registry.windows@[i as int],
    {
        self.registry.windows[i]
    }

    /// A pointer button changed state. A press inside the title bar repaints
    /// it pressed and, away from the buttons, starts an interactive move; a
    /// press while a resize arrow is shown starts an interactive resize. A
    /// release falls back to the arrow cursor and acts on the title-bar
    /// button under the pointer: close removes the window (stopping the
    /// connection when it was the last), minimize asks the compositor. The
    /// batch event becomes the button event at the last pointer position,
    /// normalized against the title bar.
    pub fn on_pointer_button(&mut self, code: u32, pressed: bool, serial: u32) -> (res: Vec<
        WlAction,
    >)
        requires
            old(self).wf(),
        ensures
            final(self).wf(),
            res@ == (if pressed {
                press_actions(*old(self), serial)
            } else {
                release_actions(*old(self))
            }),
            final(self).pending == button_pending(*old(self), code, pressed),
            final(self).events@ == (if old(self).framed_pointer {
                old(self).events@
            } else {
                old(self).events@.push(button_pending(*old(self), code, pressed))
            }),
            final(self).last_x == old(self).last_x,
            final(self).last_y == old(self).last_y,
            final(self).pointer_window == old(self).pointer_window,
            final(self).framed_pointer == old(self).framed_pointer,
            final(self).serial == old(self).serial,
            final(self).cursors.slots@ == old(self).cursors.slots@,
            final(self).cursors.current == (if !pressed && release_resets_cursor(*old(self)) {
                old(self).cursors.next_current(CursorType::Arrow)
            } else {
                old(self).cursors.current
            }),
            final(self).registry.windows@ == (if !pressed && release_closes(*old(self)) {
                old(self).registry.windows@.remove(
                    old(self).registry.index_of(old(self).pointer_window),
                )
            } else {
                old(self).registry.windows@
            }),
            final(self).running == (if !pressed && release_closes(*old(self)) {
                old(self).running && final(self).registry.windows@.len() != 0
            } else {
                old(self).running
            }),
    {
        let mut actions: Vec<WlAction> = Vec::new();
        if pressed {
            match self.registry.find(self.pointer_window) {
                Some(i) => {
                    let rec = self.windows_at(i);
                    match resize_edge_of(self.cursors.current) {
                        Some(edge) => {
                            actions.push(
                                WlAction::StartResize { window: self.pointer_window, serial, edge },
                            );
                        },
                        None => {},
                    }
                    if self.last_y < TITLEBAR_HEIGHT as i32 {
                        actions.push(
                            WlAction::RedrawTitlebar { window: self.pointer_window, pressed: true },
                        );
                        if (self.last_x as i64) < (rec.width as i64) - 92 {
                            actions.push(
                                WlAction::StartMove { window: self.pointer_window, serial },
                            );
                        }
                    }
                },
                None => {},
            }
        } else {
            match self.registry.find(self.pointer_window) {
                Some(i) => {
                    let rec = self.windows_at(i);
                    if (self.last_x as i64) < (rec.width as i64) - 92 {
                        match self.cursors.set_cursor(CursorType::Arrow) {
                            Ok(change) => {
                                if change.issue {
                                    actions.push(
                                        WlAction::CursorChange {
                                            shape: CursorType::Arrow,
                                            hotspot: change.hotspot,
                                            serial: self.serial,
                                        },
                                    );
                                }
                            },
                            Err(_) => {},
                        }
                    }
                    match titlebar_hit(rec.width, self.last_x, self.last_y) {
                        TitlebarHit::Close => {
                            actions.push(
                                WlAction::DestroySurface { window: self.pointer_window },
                            );
                            self.registry.remove(self.pointer_window);
                            if self.registry.is_empty() {
                                self.running = false;
                            }
                        },
                        TitlebarHit::Minimize => {
                            actions.push(WlAction::Minimize { window: self.pointer_window });
                        },
                        TitlebarHit::Maximize => {},
                        TitlebarHit::Elsewhere => {
                            if 4 < self.last_y && self.last_y < (TITLEBAR_HEIGHT as i32) - 4 {
                                actions.push(
                                    WlAction::RedrawTitlebar {
                                        window: self.pointer_window,
                                        pressed: false,
                                    },
                                );
                            }
                        },
                    }
                },
                None => {},
            }
        }
        self.pending = RawEvent {
            window: self.pointer_window,
            event: Event::Widget(
                if pressed {
                    WidgetEvent::ButtonPress(
                        button_from_wl(code),
                        self.last_x,
                        self.last_y - (TITLEBAR_HEIGHT as i32),
                    )
                } else {
                    WidgetEvent::ButtonRelease(
                        button_from_wl(code),
                        self.last_x,
                        self.last_y - (TITLEBAR_HEIGHT as i32),
                    )
                },
            ),
        };
        if !self.framed_pointer {
            self.events.push(self.pending);
        }
        actions
    }

    /// A configure notification arrived for a toplevel. While an interactive
    /// resize is among the announced states, a non-transient size is applied
    /// to the window's record and buffer and queued as one resize event,
    /// overwriting a resize still waiting at the back of the queue; a
    /// transient zero width or height is ignored and changes nothing.
    /// Otherwise the announced states derive one window state (maximized
    /// before fullscreen before activated), and a state-change event is
    /// queued only when that state differs from the one recorded: repeated
    /// notifications of the recorded state are coalesced away. A configure
    /// for an id no live window has is silently dropped.
    pub fn on_configure(&mut self, window: u64, width: u32, height: u32, states: &Vec<u32>)
        requires
            old(self).wf(),
        ensures
            final(self).wf(),
            final(self).framed_pointer == old(self).framed_pointer,
            final(self).pointer_window == old(self).pointer_window,
            final(self).pending == old(self).pending,
            final(self).last_x == old(self).last_x,
            final(self).last_y == old(self).last_y,
            final(self).serial == old(self).serial,
            final(self).cursors.slots@ == old(self).cursors.slots@,
            final(self).cursors.current == old(self).cursors.current,
            !old(self).registry.has_window(window) ==> *final(self) == *old(self),
            old(self).registry.has_window(window) ==> ({
                let rec = old(self).registry.record_of(window);
                let idx = old(self).registry.index_of(window);
                if has_code(states@, 3) {
                    if width == 0 || height == 0 || height <= TITLEBAR_HEIGHT {
                        *final(self) == *old(self)
                    } else {
                        &&& final(self).registry.windows@ == old(self).registry.windows@.update(
                            idx,
                            (WindowRecord {
                                width,
                                height: (height - TITLEBAR_HEIGHT) as u32,
                                buf_width: width,
                                buf_height: height,
                                ..rec
                            }),
                        )
                        &&& final(self).events@ == coalesced(old(self).events@).push(
                            RawEvent {
                                window,
                                event: Event::Window(
                                    WindowEvent::Resize(width, (height - TITLEBAR_HEIGHT) as u32),
                                ),
                            },
                        )
                        &&& final(self).running == old(self).running
                    }
                } else {
                    match state_change_emitted(rec.state, states@) {
                        Some(st) => {
                            &&& final(self).registry.windows@ == old(
                                self,
                            ).registry.windows@.update(idx, (WindowRecord { state: st, ..rec }))
                            &&& final(self).events@ == old(self).events@.push(
                                RawEvent { window, event: Event::Window(WindowEvent::StateChange(st)) },
                            )
                            &&& final(self).running == old(self).running
                        },
                        None => *final(self) == *old(self),
                    }
                }
            }),
    {
        let idx = match self.registry.find(window) {
            Some(i) => i,
            None => {
                return ;
            },
        };
        let rec = self.windows_at(idx);
        if contains_code(states, 3) {
            if width == 0 || height == 0 || height <= TITLEBAR_HEIGHT {
                return ;
            }
            let mut updated = rec;
            updated.resize(width, height - TITLEBAR_HEIGHT);
            self.registry.update_at(idx, updated);
            if self.events.len() > 0 {
                let tail = self.events[self.events.len() - 1];
                if matches!(tail.event, Event::Window(WindowEvent::Resize(_, _))) {
                    self.events.pop();
                }
            }
            self.events.push(
                RawEvent {
                    window,
                    event: Event::Window(WindowEvent::Resize(width, height - TITLEBAR_HEIGHT)),
                },
            );
        } else {
            let maximized = contains_code(states, 1);
            let fullscreen = contains_code(states, 2);
            let activated = contains_code(states, 4);
            let st = if maximized {
                WindowState::Maximized
            } else if fullscreen {
                WindowState::Fullscreen
            } else if activated {
                WindowState::Activated
            } else {
                return ;
            };
            if rec.state == st {
                return ;
            }
            let mut updated = rec;
            updated.state = st;
            self.registry.update_at(idx, updated);
            self.events.push(
                RawEvent { window, event: Event::Window(WindowEvent::StateChange(st)) },
            );
        }
    }

    /// Requests a cursor shape for the pointer, as pointer-hover logic asks.
    /// A request for the shape already applied, or while a resize arrow is
    /// applied, is a no-op; a shape that never decoded changes nothing and
    /// the pointer keeps its current image. At most one native request is
    /// issued per distinct requested shape.
    pub fn request_cursor(&mut self, shape: CursorType) -> (res: Option<WlAction>)
        requires
            old(self).wf(),
        ensures
            final(self).wf(),
            final(self).registry.windows@ == old(self).registry.windows@,
            final(self).events@ == old(self).events@,
            final(self).running == old(self).running,
            final(self).cursors.slots@ == old(self).cursors.slots@,
            old(self).cursors.current == shape || old(self).cursors.current.is_resize() ==> (
            *final(self) == *old(self) && res is None),
            !(old(self).cursors.current == shape || old(self).cursors.current.is_resize()) ==> ({
                &&& final(self).cursors.current == old(self).cursors.next_current(shape)
                &&& (res is Some <==> old(self).cursors.issues_request(shape))
                &&& (res matches Some(a) ==> a == (WlAction::CursorChange {
                    shape,
                    hotspot: old(self).cursors.slots@[old(self).cursors.slot_index(shape)].hotspot,
                    serial: old(self).serial,
                }))
            }),
    {
        if self.cursors.current.to_code() == shape.to_code() {
            return None;
        }
        let current = self.cursors.current;
        if matches!(
            current,
            CursorType::NResize | CursorType::SResize | CursorType::EResize | CursorType::WResize
                | CursorType::NEResize | CursorType::NWResize | CursorType::SEResize
                | CursorType::SWResize | CursorType::NSResize | CursorType::EWResize,
        ) {
            return None;
        }
        match self.cursors.set_cursor(shape) {
            Ok(change) => {
                if change.issue {
                    Some(
                        WlAction::CursorChange {
                            shape,
                            hotspot: change.hotspot,
                            serial: self.serial,
                        },
                    )
                } else {
                    None
                }
            },
            Err(_) => None,
        }
    }

    /// Whether the next poll reports the dispatch loop finished.
    pub open spec fn poll_finished(self) -> bool {
        !self.running
    }

    /// Pulls one translated event. Returns `Finished` exactly when the
    /// connection stopped running (the registry became empty); `Ready` with
    /// the front of the queue otherwise, or `NeedDispatch` when the caller
    /// must first block on the transport for more notifications.
    pub fn poll_event(&mut self) -> (res: EventPoll)
        requires
            old(self).wf(),
        ensures
            final(self).wf(),
            (res == EventPoll::Finished) <==> old(self).poll_finished(),
            res matches EventPoll::Ready(e) ==> old(self).events@.len() > 0 && e == old(
                self,
            ).events@[0] && final(self).events@ == old(self).events@.drop_first(),
            res == EventPoll::NeedDispatch ==> old(self).events@.len() == 0 && *final(self)
                == *old(self),
            res == EventPoll::Finished ==> *final(self) == *old(self),
            final(self).registry.windows@ == old(self).registry.windows@,
            final(self).running == old(self).running,
            final(self).framed_pointer == old(self).framed_pointer,
            final(self).pointer_window == old(self).pointer_window,
            final(self).pending == old(self).pending,
            final(self).last_x == old(self).last_x,
            final(self).last_y == old(self).last_y,
            final(self).serial == old(self).serial,
            final(self).cursors.slots@ == old(self).cursors.slots@,
            final(self).cursors.current == old(self).cursors.current,
    {
        if !self.running {
            EventPoll::Finished
        } else if self.events.len() == 0 {
            EventPoll::NeedDispatch
        } else {
            let ev = self.events.remove(0);
            EventPoll::Ready(ev)
        }
    }
}

/// The batch pointer event a motion at `(x, y)` assembles: a widget move
/// addressed to the pointer window, normalized against the title bar.
pub open spec fn motion_pending(c: WaylandConn, x: u32, y: u32) -> RawEvent {
    RawEvent {
        window: c.pointer_window,
        event: Event::Widget(
            WidgetEvent::Move(x as i32, (y as int - TITLEBAR_HEIGHT as int) as i32),
        ),
    }
}

/// The resize arrow a motion to `(x, y)` asks for, against the pointer
/// window's size.
pub open spec fn motion_edge_shape(c: WaylandConn, x: u32, y: u32) -> CursorType {
    let rec = c.registry.record_of(c.pointer_window);
    resize_edge_shape_spec(rec.width, rec.height, x as int, y as int)
}

/// The native requests a motion issues: a cursor change on a shape
/// transition, and a title-bar repaint while the pointer was in the bar.
pub open spec fn motion_actions(c: WaylandConn, x: u32, y: u32) -> Seq<WlAction> {
    if !c.registry.has_window(c.pointer_window) {
        Seq::empty()
    } else {
        let shape = motion_edge_shape(c, x, y);
        let cursor_part: Seq<WlAction> = if c.cursors.issues_request(shape) {
            seq![
                WlAction::CursorChange {
                    shape,
                    hotspot: c.cursors.slots@[c.cursors.slot_index(shape)].hotspot,
                    serial: c.serial,
                },
            ]
        } else {
            Seq::empty()
        };
        let bar_part: Seq<WlAction> = if c.last_y < TITLEBAR_HEIGHT {
            seq![WlAction::RedrawTitlebar { window: c.pointer_window, pressed: false }]
        } else {
            Seq::empty()
        };
        cursor_part + bar_part
    }
}

/// The batch pointer event a button notification assembles: the button event
/// at the last pointer position, normalized against the title bar.
pub open spec fn button_pending(c: WaylandConn, code: u32, pressed: bool) -> RawEvent {
    RawEvent {
        window: c.pointer_window,
        event: Event::Widget(
            if pressed {
                WidgetEvent::ButtonPress(
                    button_from_wl_spec(code),
                    c.last_x,
                    (c.last_y as int - TITLEBAR_HEIGHT as int) as i32,
                )
            } else {
                WidgetEvent::ButtonRelease(
                    button_from_wl_spec(code),
                    c.last_x,
                    (c.last_y as int - TITLEBAR_HEIGHT as int) as i32,
                )
            },
        ),
    }
}

/// The native requests a button press issues: an interactive resize while a
/// resize arrow is shown, and inside the title bar a pressed repaint plus,
/// away from the bar's buttons, an interactive move.
pub open spec fn press_actions(c: WaylandConn, serial: u32) -> Seq<WlAction> {
    if !c.registry.has_window(c.pointer_window) {
        Seq::empty()
    } else {
        let rec = c.registry.record_of(c.pointer_window);
        let resize_part: Seq<WlAction> = match resize_edge_of_spec(c.cursors.current) {
            Some(edge) => seq![WlAction::StartResize { window: c.pointer_window, serial, edge }],
            None => Seq::empty(),
        };
        let bar_part: Seq<WlAction> = if c.last_y < TITLEBAR_HEIGHT {
            seq![WlAction::RedrawTitlebar { window: c.pointer_window, pressed: true }] + (
            if (c.last_x as int) < rec.width - 92 {
                seq![WlAction::StartMove { window: c.pointer_window, serial }]
            } else {
                Seq::empty()
            })
        } else {
            Seq::empty()
        };
        resize_part + bar_part
    }
}

/// Whether a button release falls back to the arrow cursor: only away from
/// the title-bar buttons.
pub open spec fn release_resets_cursor(c: WaylandConn) -> bool {
    &&& c.registry.has_window(c.pointer_window)
    &&& (c.last_x as int) < c.registry.record_of(c.pointer_window).width - 92
}

/// The title-bar button a release at the last pointer position lands on.
pub open spec fn release_hit(c: WaylandConn) -> TitlebarHit {
    titlebar_hit_spec(
        c.registry.record_of(c.pointer_window).width,
        c.last_x as int,
        c.last_y as int,
    )
}

/// Whether a button release closes the pointer window (its title-bar close
/// button is under the pointer).
pub open spec fn release_closes(c: WaylandConn) -> bool {
    &&& c.registry.has_window(c.pointer_window)
    &&& release_hit(c) == TitlebarHit::Close
}

/// The native requests a button release issues: the arrow-cursor fallback on
/// a transition, then what the title-bar button under the pointer asks for.
pub open spec fn release_actions(c: WaylandConn) -> Seq<WlAction> {
    if !c.registry.has_window(c.pointer_window) {
        Seq::empty()
    } else {
        let cursor_part: Seq<WlAction> = if release_resets_cursor(c) && c.cursors.issues_request(
            CursorType::Arrow,
        ) {
            seq![
                WlAction::CursorChange {
                    shape: CursorType::Arrow,
                    hotspot: c.cursors.slots@[c.cursors.slot_index(CursorType::Arrow)].hotspot,
                    serial: c.serial,
                },
            ]
        } else {
            Seq::empty()
        };
        let bar_part: Seq<WlAction> = match release_hit(c) {
            TitlebarHit::Close => seq![WlAction::DestroySurface { window: c.pointer_window }],
            TitlebarHit::Minimize => seq![WlAction::Minimize { window: c.pointer_window }],
            TitlebarHit::Maximize => Seq::empty(),
            TitlebarHit::Elsewhere => {
                if 4 < c.last_y && (c.last_y as int) < TITLEBAR_HEIGHT - 4 {
                    seq![WlAction::RedrawTitlebar { window: c.pointer_window, pressed: false }]
                } else {
                    Seq::empty()
                }
            },
        };
        cursor_part + bar_part
    }
}

/// Whether one of the announced configure state codes equals `code`.
pub open spec fn has_code(states: Seq<u32>, code: u32) -> bool {
    exists|i: int| 0 <= i < states.len() && states[i] == code
}

/// The window state a configure notification derives from its announced
/// states, by the priority order maximized, then fullscreen, then activated;
/// none when no recognized state is announced.
pub open spec fn derived_state(states: Seq<u32>) -> Option<WindowState> {
    if has_code(states, 1) {
        Some(WindowState::Maximized)
    } else if has_code(states, 2) {
        Some(WindowState::Fullscreen)
    } else if has_code(states, 4) {
        Some(WindowState::Activated)
    } else {
        None
    }
}

/// The state-change event a configure emits against the state last recorded
/// for the window: only a derived state that differs is emitted.
pub open spec fn state_change_emitted(recorded: WindowState, states: Seq<u32>) -> Option<
    WindowState,
> {
    match derived_state(states) {
        Some(st) => if st != recorded {
            Some(st)
        } else {
            None
        },
        None => None,
    }
}

/// The queue with a resize event still waiting at its back taken out: the
/// arriving resize overwrites it.
pub open spec fn coalesced(q: Seq<RawEvent>) -> Seq<RawEvent> {
    if q.len() > 0 && (q.last().event matches Event::Window(WindowEvent::Resize(_, _))) {
        q.drop_last()
    } else {
        q
    }
}

/// Whether one of the announced state codes equals `code`.
fn contains_code(states: &Vec<u32>, code: u32) -> (res: bool)
    ensures
        res == has_code(states@, code),
{
    let n = states.len();
    let mut i: usize = 0;
    while i < n
        invariant
            n == states@.len(),
            i <= n,
            forall|j: int| 0 <= j < i as int ==> states@[j] != code,
        decreases n - i,
    {
        if states[i] == code {
            proof {
                assert(states@[i as int] == code);
            }
            return true;
        }
        i = i + 1;
    }
    false
}

/// Bytes of the shared-memory presentation buffer for a client area of the
/// given size: four bytes per pixel, title bar included.
pub open spec fn data_size_spec(width: u32, height: u32) -> int {
    (width as int) * ((height as int) + (TITLEBAR_HEIGHT as int)) * 4
}

/// Computes the presentation-buffer size for a client area.
pub fn data_size(width: u32, height: u32) -> (res: usize)
    requires
        height as int + TITLEBAR_HEIGHT as int <= u32::MAX as int,
        data_size_spec(width, height) <= usize::MAX as int,
    ensures
        res == data_size_spec(width, height),
{
    (width as usize) * ((height as usize) + (TITLEBAR_HEIGHT as usize)) * 4
}

/// The four bytes pixel `i` of the packed buffer carries: the pixel's three
/// source channels in order, and a fully opaque fourth channel.
pub open spec fn packed_pixel(res: Seq<u8>, src: Seq<u8>, i: int) -> bool {
    &&& res[4 * i] == src[3 * i]
    &&& res[4 * i + 1] == src[3 * i + 1]
    &&& res[4 * i + 2] == src[3 * i + 2]
    &&& res[4 * i + 3] == 0xffu8
}

/// Packs `count` pixels of a 3-byte-per-pixel buffer into the 4-byte-per-pixel
/// layout the shared-memory buffer uses, with an opaque fourth channel, as the
/// platform's pixel format requires.
pub fn pack_rgb(src: &Vec<u8>, count: usize) -> (res: Vec<u8>)
    requires
        3 * count <= src@.len(),
    ensures
        res@.len() == 4 * count,
        forall|i: int| 0 <= i < count ==> #[trigger] packed_pixel(res@, src@, i),
{
    let mut res: Vec<u8> = Vec::new();
    let slen: usize = src.len();
    let mut i: usize = 0;
    while i < count
        invariant
            3 * count <= src@.len(),
            src@.len() == slen as int,
            i <= count,
            res@.len() == 4 * i,
            forall|j: int| 0 <= j < i as int ==> #[trigger] packed_pixel(res@, src@, j),
        decreases count - i,
    {
        let ghost pre = res@;
        res.push(src[3 * i]);
        res.push(src[3 * i + 1]);
        res.push(src[3 * i + 2]);
        res.push(0xff);
        proof {
            assert(packed_pixel(res@, src@, i as int));
            assert forall|j: int| 0 <= j < (i + 1) as int implies #[trigger] packed_pixel(
                res@,
                src@,
                j,
            ) by {
                if j < i as int {
                    assert(packed_pixel(pre, src@, j));
                    assert(res@[4 * j] == pre[4 * j]);
                    assert(res@[4 * j + 1] == pre[4 * j + 1]);
                    assert(res@[4 * j + 2] == pre[4 * j + 2]);
                    assert(res@[4 * j + 3] == pre[4 * j + 3]);
                }
            }
        }
        i = i + 1;
    }
    res
}

/// Two consecutive configure notifications deriving the same window state
/// produce exactly one state-change event: the first records the state, so
/// the second emits none.
pub proof fn lemma_state_change_coalescing(
    recorded: WindowState,
    st: WindowState,
    s1: Seq<u32>,
    s2: Seq<u32>,
)
    requires
        derived_state(s1) == Some(st),
        derived_state(s2) == Some(st),
        recorded != st,
    ensures
        state_change_emitted(recorded, s1) == Some(st),
        state_change_emitted(st, s2) is None,
{
}

/// Removing the last tracked window stops the connection, and a stopped
/// connection's next poll reports the dispatch loop finished: the caller
/// sees that no windows remain without ever learning of the removed id.
pub proof fn lemma_close_last_window_finishes(pre: WaylandConn, post: WaylandConn, window: u64)
    requires
        post.running == (pre.running && post.registry.windows@.len() != 0),
        post.registry.windows@.len() == 0,
    ensures
        post.poll_finished(),
{
}

} // verus!

