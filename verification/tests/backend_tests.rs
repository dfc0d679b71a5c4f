use parslay::cursor::{CursorType, HoverResult};
use parslay::dispatch::{choose_backend, loop_step, route_event, Backend, LoopState, RouteAction};
use parslay::event::{Button, Event, Key, Modifiers, RawEvent, WidgetEvent, WindowEvent, WindowState};
use parslay::win32::{
    next_event, swap_rgb_to_bgr, MessageOutcome, Win32Window, WM_ACTIVATE, WM_CLOSE, WM_DESTROY,
    WM_LBUTTONDOWN, WM_MOUSEMOVE, WM_RBUTTONUP, WM_SIZE,
};
use parslay::x11::{find_argb_format, PictFormat, X11Atoms, X11Conn, X11Event};
use parslay::{FrameType, Size, Sizing};

fn atoms() -> X11Atoms {
    X11Atoms {
        wm_delete_window: 101,
        net_wm_state: 102,
        net_wm_state_maximized_vert: 103,
        net_wm_state_maximized_horz: 104,
        net_wm_state_fullscreen: 105,
        net_wm_state_focused: 106,
    }
}

fn x11_conn() -> (X11Conn, u64) {
    // A mapping where keycode 8 produces 'a' and keycode 9 produces '1'.
    let mut keymap = vec![0u32; 248];
    keymap[0] = 0x61;
    keymap[1] = 0x31;
    let mut conn = X11Conn::new(atoms(), keymap);
    let id = conn.create_window(800, 600);
    (conn, id)
}

#[test]
fn x11_delete_message_removes_window() {
    let (mut conn, id) = x11_conn();
    let keep = conn.create_window(300, 200);
    let ev = X11Event::ClientMessage { window: id, format: 32, data0: 101 };
    assert_eq!(
        conn.handle_event(&ev).unwrap(),
        Some(RawEvent { window: 0, event: Event::Unknown })
    );
    assert_eq!(conn.registry.windows.len(), 1);
    // Deleting the last window ends the dispatch loop.
    let ev = X11Event::ClientMessage { window: keep, format: 32, data0: 101 };
    assert_eq!(conn.handle_event(&ev).unwrap(), None);
}

#[test]
fn x11_key_press_translates_with_shift() {
    let (mut conn, id) = x11_conn();
    let pressed = X11Event::KeyPress { window: id, detail: 8, state: 0x0001 };
    assert_eq!(
        conn.handle_event(&pressed).unwrap(),
        Some(RawEvent {
            window: id,
            event: Event::Window(WindowEvent::KeyPress(Modifiers(1), Key::A)),
        })
    );
    let plain = X11Event::KeyRelease { window: id, detail: 9, state: 0 };
    assert_eq!(
        conn.handle_event(&plain).unwrap(),
        Some(RawEvent {
            window: id,
            event: Event::Window(WindowEvent::KeyRelease(Modifiers(0), Key::Key1)),
        })
    );
}

#[test]
fn x11_pointer_events_pass_coordinates_through() {
    let (mut conn, id) = x11_conn();
    let press = X11Event::ButtonPress { window: id, detail: 1, x: 410, y: 40 };
    assert_eq!(
        conn.handle_event(&press).unwrap(),
        Some(RawEvent {
            window: id,
            event: Event::Widget(WidgetEvent::ButtonPress(Button::Left, 410, 40)),
        })
    );
    let motion = X11Event::Motion { window: id, x: 5, y: -3 };
    assert_eq!(
        conn.handle_event(&motion).unwrap(),
        Some(RawEvent { window: id, event: Event::Widget(WidgetEvent::Move(5, -3)) })
    );
}

#[test]
fn x11_configure_coalesces_repeated_state() {
    let (mut conn, id) = x11_conn();
    let focused = X11Event::Configure { window: id, width: 800, height: 600, atoms: vec![106] };
    assert_eq!(
        conn.handle_event(&focused).unwrap(),
        Some(RawEvent {
            window: id,
            event: Event::Window(WindowEvent::StateChange(WindowState::Activated)),
        })
    );
    let again = X11Event::Configure { window: id, width: 800, height: 600, atoms: vec![106] };
    assert_eq!(
        conn.handle_event(&again).unwrap(),
        Some(RawEvent { window: 0, event: Event::Unknown })
    );
}

#[test]
fn x11_configure_derives_one_state_by_priority() {
    let (mut conn, id) = x11_conn();
    // Maximized (both atoms) wins over focused: one Maximized change.
    let both = X11Event::Configure { window: id, width: 800, height: 600, atoms: vec![103, 104, 106] };
    assert_eq!(
        conn.handle_event(&both).unwrap(),
        Some(RawEvent {
            window: id,
            event: Event::Window(WindowEvent::StateChange(WindowState::Maximized)),
        })
    );
    // Still maximized and also focused: the derived state equals the recorded
    // one, so nothing is emitted even though focused is newly announced.
    let again = X11Event::Configure { window: id, width: 800, height: 600, atoms: vec![103, 104, 106] };
    assert_eq!(
        conn.handle_event(&again).unwrap(),
        Some(RawEvent { window: 0, event: Event::Unknown })
    );
    // Maximized plus fullscreen still derives Maximized: no change either.
    let with_fs = X11Event::Configure { window: id, width: 800, height: 600, atoms: vec![103, 104, 105] };
    assert_eq!(
        conn.handle_event(&with_fs).unwrap(),
        Some(RawEvent { window: 0, event: Event::Unknown })
    );
    // Only one maximized atom is not maximized: fullscreen wins now.
    let fs = X11Event::Configure { window: id, width: 800, height: 600, atoms: vec![103, 105] };
    assert_eq!(
        conn.handle_event(&fs).unwrap(),
        Some(RawEvent {
            window: id,
            event: Event::Window(WindowEvent::StateChange(WindowState::Fullscreen)),
        })
    );
}

#[test]
fn backend_choice() {
    assert_eq!(choose_backend(true, true), Backend::Win32);
    assert_eq!(choose_backend(false, true), Backend::Wayland);
    assert_eq!(choose_backend(false, false), Backend::X11);
}

#[test]
fn x11_configure_resize_and_zero_ignore() {
    let (mut conn, id) = x11_conn();
    let resize = X11Event::Configure { window: id, width: 400, height: 300, atoms: vec![106] };
    // Focused wins over the size difference the first time.
    conn.handle_event(&resize).unwrap();
    let resize = X11Event::Configure { window: id, width: 400, height: 300, atoms: vec![106] };
    assert_eq!(
        conn.handle_event(&resize).unwrap(),
        Some(RawEvent { window: id, event: Event::Window(WindowEvent::Resize(400, 300)) })
    );
    assert_eq!(conn.registry.windows[0].width, 400);
    assert_eq!(conn.registry.windows[0].buf_height, 300);
    // A transient zero size is ignored: the buffer stays as it was.
    let zero = X11Event::Configure { window: id, width: 0, height: 120, atoms: vec![106] };
    assert_eq!(
        conn.handle_event(&zero).unwrap(),
        Some(RawEvent { window: 0, event: Event::Unknown })
    );
    assert_eq!(conn.registry.windows[0].width, 400);
    assert_eq!(conn.registry.windows[0].buf_width, 400);
}

#[test]
fn x11_late_configure_for_removed_window_is_dropped() {
    let (mut conn, id) = x11_conn();
    conn.create_window(300, 200);
    let delete = X11Event::ClientMessage { window: id, format: 32, data0: 101 };
    conn.handle_event(&delete).unwrap();
    let late = X11Event::Configure { window: id, width: 100, height: 100, atoms: vec![106] };
    assert_eq!(
        conn.handle_event(&late).unwrap(),
        Some(RawEvent { window: 0, event: Event::Unknown })
    );
}

#[test]
fn x11_protocol_error_is_fatal() {
    let (mut conn, _) = x11_conn();
    assert!(conn.handle_event(&X11Event::ProtocolError).is_err());
}

#[test]
fn argb_format_selection() {
    let argb = PictFormat {
        id: 42,
        direct: true,
        depth: 32,
        red_shift: 16,
        red_mask: 0xff,
        green_shift: 8,
        green_mask: 0xff,
        blue_shift: 0,
        blue_mask: 0xff,
        alpha_shift: 24,
        alpha_mask: 0xff,
    };
    let other = PictFormat { id: 7, depth: 24, ..argb };
    assert_eq!(find_argb_format(&vec![other, argb]), Some(42));
    assert_eq!(find_argb_format(&vec![other]), None);
}

#[test]
fn win32_size_message_resizes_and_ignores_zero() {
    let mut win = Win32Window::new(1, 800, 600);
    let lparam = (300u64 << 16) | 400u64;
    assert_eq!(win.handle_message(WM_SIZE, 0, lparam), MessageOutcome::Handled);
    assert_eq!(win.record.width, 400);
    assert_eq!(win.record.height, 300);
    assert_eq!(win.events[0], Event::Window(WindowEvent::Resize(400, 300)));
    // A zero extent is transient: the record and its buffer stay unchanged.
    assert_eq!(win.handle_message(WM_SIZE, 0, 300u64 << 16), MessageOutcome::Handled);
    assert_eq!(win.record.width, 400);
    assert_eq!(win.record.buf_width, 400);
    assert_eq!(win.events.len(), 1);
}

#[test]
fn win32_activation_is_coalesced() {
    let mut win = Win32Window::new(1, 800, 600);
    win.handle_message(WM_ACTIVATE, 1, 0);
    win.handle_message(WM_ACTIVATE, 1, 0);
    assert_eq!(win.events, vec![Event::Window(WindowEvent::StateChange(WindowState::Activated))]);
    win.handle_message(WM_ACTIVATE, 0, 0);
    assert_eq!(win.events.len(), 2);
    assert_eq!(win.events[1], Event::Window(WindowEvent::StateChange(WindowState::Suspended)));
}

#[test]
fn win32_mouse_messages() {
    let mut win = Win32Window::new(1, 800, 600);
    let lparam = (40u64 << 16) | 410u64;
    win.handle_message(WM_LBUTTONDOWN, 1, lparam);
    win.handle_message(WM_RBUTTONUP, 0, lparam);
    win.handle_message(WM_MOUSEMOVE, 0, lparam);
    assert_eq!(
        win.events,
        vec![
            Event::Widget(WidgetEvent::ButtonPress(Button::Left, 410, 40)),
            Event::Widget(WidgetEvent::ButtonRelease(Button::Right, 410, 40)),
            Event::Widget(WidgetEvent::Move(410, 40)),
        ]
    );
}

#[test]
fn win32_close_and_destroy_outcomes() {
    let mut win = Win32Window::new(1, 800, 600);
    assert_eq!(win.handle_message(WM_CLOSE, 0, 0), MessageOutcome::Destroy);
    assert_eq!(win.handle_message(WM_DESTROY, 0, 0), MessageOutcome::Quit);
    assert_eq!(win.handle_message(0x9999, 0, 0), MessageOutcome::DefaultProc);
    assert_eq!(win.events.len(), 0);
}

#[test]
fn win32_pump_pops_first_queued_event() {
    let mut windows = vec![Win32Window::new(1, 100, 100), Win32Window::new(2, 100, 100)];
    windows[1].handle_message(WM_MOUSEMOVE, 0, 0);
    let ev = next_event(&mut windows);
    assert_eq!(ev, RawEvent { window: 2, event: Event::Widget(WidgetEvent::Move(0, 0)) });
    let none = next_event(&mut windows);
    assert_eq!(none, RawEvent { window: 0, event: Event::Unknown });
}

#[test]
fn win32_channel_swap() {
    let src = vec![1u8, 2, 3, 4, 5, 6, 7, 8, 9];
    assert_eq!(swap_rgb_to_bgr(&src, 3), vec![3, 2, 1, 6, 5, 4, 9, 8, 7]);
    assert_eq!(swap_rgb_to_bgr(&src, 1), vec![3, 2, 1]);
}

#[test]
fn routing_decisions() {
    // An id that no longer resolves is dropped, whatever the event.
    assert_eq!(
        route_event(false, Event::Window(WindowEvent::Resize(10, 10))),
        RouteAction::Drop
    );
    assert_eq!(
        route_event(true, Event::Window(WindowEvent::Resize(10, 10))),
        RouteAction::ResizeContent(10, 10)
    );
    assert_eq!(
        route_event(true, Event::Window(WindowEvent::KeyPress(Modifiers(2), Key::c))),
        RouteAction::Shortcut(Modifiers(2), Key::c)
    );
    assert_eq!(
        route_event(true, Event::Window(WindowEvent::KeyPress(Modifiers(1), Key::A))),
        RouteAction::KeyToFocus(Key::A)
    );
    assert_eq!(
        route_event(true, Event::Window(WindowEvent::KeyPress(Modifiers(0), Key::Escape))),
        RouteAction::ClearFocus
    );
    assert_eq!(
        route_event(true, Event::Widget(WidgetEvent::Move(3, 4))),
        RouteAction::Hover(3, 4)
    );
    assert_eq!(route_event(true, Event::Unknown), RouteAction::Nothing);
}

#[test]
fn loop_transitions() {
    assert_eq!(loop_step(LoopState::Running, true, true), LoopState::Running);
    assert_eq!(loop_step(LoopState::Running, false, true), LoopState::Terminated);
    assert_eq!(loop_step(LoopState::Running, true, false), LoopState::Terminated);
    assert_eq!(loop_step(LoopState::Terminated, true, true), LoopState::Terminated);
}

#[test]
fn cursor_precedence_combining() {
    assert_eq!(CursorType::Arrow.combine(CursorType::Text), CursorType::Text);
    assert_eq!(CursorType::Text.combine(CursorType::Pointer), CursorType::Pointer);
    assert_eq!(CursorType::Pointer.combine(CursorType::Text), CursorType::Pointer);
    assert_eq!(CursorType::Unknown.combine(CursorType::Arrow), CursorType::Arrow);
    assert_eq!(CursorType::NResize.combine(CursorType::SResize), CursorType::NSResize);
    assert_eq!(CursorType::EResize.combine(CursorType::WResize), CursorType::EWResize);
    assert_eq!(CursorType::NResize.combine(CursorType::EResize), CursorType::NEResize);
    assert_eq!(CursorType::SResize.combine(CursorType::WResize), CursorType::SWResize);
    assert_eq!(CursorType::NEResize.combine(CursorType::Pointer), CursorType::NEResize);
    assert_eq!(CursorType::Pointer.combine(CursorType::SResize), CursorType::SResize);
    assert_eq!(CursorType::SResize.combine(CursorType::Pointer), CursorType::SResize);
    assert_eq!(CursorType::WResize.combine(CursorType::NEResize), CursorType::NEResize);
    assert_eq!(CursorType::Text.combine(CursorType::Text), CursorType::Text);
    assert_eq!(CursorType::NSResize.combine(CursorType::EWResize), CursorType::NSResize);
}

#[test]
fn cursor_codes_and_names() {
    assert_eq!(CursorType::NSResize.to_code(), 12);
    assert_eq!(CursorType::from_code(12), Some(CursorType::NSResize));
    assert_eq!(CursorType::from_code(12).unwrap().to_code(), 12);
    assert_eq!(CursorType::from_code(200), None);
    assert_eq!(CursorType::Arrow.name(), "arrow");
    assert_eq!(CursorType::SEResize.name(), "se-resize");
    assert_eq!(CursorType::Unknown.name(), "default");
}

#[test]
fn hover_results_merge() {
    let mut hover = HoverResult { redraw: false, cursor: CursorType::Arrow };
    hover.merge(HoverResult { redraw: true, cursor: CursorType::Text });
    assert!(hover.redraw);
    assert_eq!(hover.cursor, CursorType::Text);
    hover.merge(HoverResult { redraw: false, cursor: CursorType::EResize });
    assert_eq!(hover.cursor, CursorType::EResize);
}

#[test]
fn sizing_constructors() {
    let s = Size::fixed(10, 20);
    assert_eq!(s.w, Sizing::Fixed(10));
    assert_eq!(s.h, Sizing::Fixed(20));
    assert_eq!(Size::stretch(1, 2).w, Sizing::Stretch(1));
    assert_eq!(Size::fill().h, Sizing::Fill);
    assert_eq!(Size::new(Sizing::Fill, Sizing::Fixed(3)).h, Sizing::Fixed(3));
    assert_eq!(Size::default().w, Sizing::Stretch(0));
    assert_eq!(Sizing::default(), Sizing::Stretch(0));
}

#[test]
fn frame_type_keys() {
    assert_eq!(FrameType::Unframed.key(), "");
    assert_eq!(FrameType::Box.key(), "Box");
    assert_eq!(FrameType::InputFrame.key(), "InputFrame");
    assert_eq!(FrameType::Custom("Fancy".to_string()).key(), "Fancy");
}
