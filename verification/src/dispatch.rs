//! The dispatch loop's decisions.
//!
//! Each iteration pulls one normalized event from the connection and routes
//! it to the addressed window. The loop runs until the connection reports
//! that no windows remain, or an error is returned; the terminal state has no
//! outgoing transitions. An event addressing an id that does not resolve is
//! dropped, never an error: removal races with events already in flight.

use vstd::prelude::*;

use crate::event::Button;
use crate::event::Event;
use crate::event::Key;
use crate::event::Modifiers;
use crate::event::MOD_ALT;
use crate::event::MOD_CONTROL;
use crate::event::MOD_SUPER;
use crate::event::WidgetEvent;
use crate::event::WindowEvent;

verus! {

/// Which native backend a connection drives.
#[derive(Clone, Copy, Debug, PartialEq, Eq, Structural)]
pub enum Backend {
    Wayland,
    X11,
    Win32,
}

/// The backend the capability probe picks, once at startup: always Win32 on a
/// Windows host; on Linux, Wayland when the compositor's display variable is
/// set and non-empty, X11 otherwise.
pub open spec fn choose_backend_spec(windows_host: bool, wayland_display: bool) -> Backend {
    if windows_host {
        Backend::Win32
    } else if wayland_display {
        Backend::Wayland
    } else {
        Backend::X11
    }
}

/// Chooses the backend from the probed capabilities.
pub fn choose_backend(windows_host: bool, wayland_display: bool) -> (res: Backend)
    ensures
        res == choose_backend_spec(windows_host, wayland_display),
{
    if windows_host {
        Backend::Win32
    } else if wayland_display {
        Backend::Wayland
    } else {
        Backend::X11
    }
}

/// The dispatch loop's state.
#[derive(Clone, Copy, Debug, PartialEq, Eq, Structural)]
pub enum LoopState {
    Running,
    Terminated,
}

/// One loop transition, on the outcome of pulling an event: the loop keeps
/// running on a delivered event, and terminates when no windows remain
/// (`Ok(None)`) or the connection failed; `Terminated` has no way out.
pub open spec fn loop_step_spec(state: LoopState, delivered: bool, ok: bool) -> LoopState {
    match state {
        LoopState::Running => if ok && delivered {
            LoopState::Running
        } else {
            LoopState::Terminated
        },
        LoopState::Terminated => LoopState::Terminated,
    }
}

/// Advances the dispatch loop: `delivered` says whether an event arrived,
/// `ok` whether the connection is still healthy.
pub fn loop_step(state: LoopState, delivered: bool, ok: bool) -> (res: LoopState)
    ensures
        res == loop_step_spec(state, delivered, ok),
{
    match state {
        LoopState::Running => if ok && delivered {
            LoopState::Running
        } else {
            LoopState::Terminated
        },
        LoopState::Terminated => LoopState::Terminated,
    }
}

/// What the loop does with one routed event.
#[derive(Clone, Copy, Debug, PartialEq, Eq, Structural)]
pub enum RouteAction {
    /// The addressed window is gone (a late event after removal) or the
    /// event is untranslated: dropped silently, never an error.
    Drop,
    /// Resize the window's content to the new client area.
    ResizeContent(u32, u32),
    /// A key chord with Control, Alt or Super held: a shortcut, not text.
    Shortcut(Modifiers, Key),
    /// Escape clears the keyboard focus.
    ClearFocus,
    /// Any other key press goes to the focused widget.
    KeyToFocus(Key),
    /// A pointer press at client coordinates.
    Press(Button, i32, i32),
    /// A pointer release at client coordinates.
    Release(Button, i32, i32),
    /// Pointer hover movement at client coordinates.
    Hover(i32, i32),
    /// Nothing to do for this event.
    Nothing,
}

/// Where one normalized event is routed, given whether its addressed window
/// resolves in the registry: an unresolved id is dropped.
pub open spec fn route_event_spec(known: bool, ev: Event) -> RouteAction {
    if !known {
        RouteAction::Drop
    } else {
        match ev {
            Event::Window(WindowEvent::Resize(w, h)) => RouteAction::ResizeContent(w, h),
            Event::Window(WindowEvent::KeyPress(mods, key)) => {
                if mods.0 & (MOD_CONTROL | MOD_ALT | MOD_SUPER) != 0 {
                    RouteAction::Shortcut(mods, key)
                } else if key == Key::Escape {
                    RouteAction::ClearFocus
                } else {
                    RouteAction::KeyToFocus(key)
                }
            },
            Event::Widget(WidgetEvent::ButtonPress(b, x, y)) => RouteAction::Press(b, x, y),
            Event::Widget(WidgetEvent::ButtonRelease(b, x, y)) => RouteAction::Release(b, x, y),
            Event::Widget(WidgetEvent::Move(x, y)) => RouteAction::Hover(x, y),
            _ => RouteAction::Nothing,
        }
    }
}

/// Routes one normalized event to the addressed window's action.
pub fn route_event(known: bool, ev: Event) -> (res: RouteAction)
    ensures
        res == route_event_spec(known, ev),
{
    if !known {
        return RouteAction::Drop;
    }
    match ev {
        Event::Window(WindowEvent::Resize(w, h)) => RouteAction::ResizeContent(w, h),
        Event::Window(WindowEvent::KeyPress(mods, key)) => {
            if mods.0 & (MOD_CONTROL | MOD_ALT | MOD_SUPER) != 0 {
                RouteAction::Shortcut(mods, key)
            } else if matches!(key, Key::Escape) {
                RouteAction::ClearFocus
            } else {
                RouteAction::KeyToFocus(key)
            }
        },
        Event::Widget(WidgetEvent::ButtonPress(b, x, y)) => RouteAction::Press(b, x, y),
        Event::Widget(WidgetEvent::ButtonRelease(b, x, y)) => RouteAction::Release(b, x, y),
        Event::Widget(WidgetEvent::Move(x, y)) => RouteAction::Hover(x, y),
        _ => RouteAction::Nothing,
    }
}

/// A late event addressing a window id that no longer resolves is silently
/// dropped, whatever the event was: never a panic, never an error.
pub proof fn lemma_unknown_id_dropped(ev: Event)
    ensures
        route_event_spec(false, ev) == RouteAction::Drop,
{
}

/// The terminal loop state has no outgoing transition.
pub proof fn lemma_terminated_is_final(delivered: bool, ok: bool)
    ensures
        loop_step_spec(LoopState::Terminated, delivered, ok) == LoopState::Terminated,
{
}

} // verus!
