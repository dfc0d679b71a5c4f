use parslay::event::{Button, Event, Key, Modifiers, RawEvent, WidgetEvent, WindowEvent, WindowState};
use parslay::wayland::{
    data_size, pack_rgb, titlebar_hit, EventPoll, TitlebarHit, WaylandConn, WlAction,
    TITLEBAR_HEIGHT,
};

fn conn_with_window() -> (WaylandConn, u64) {
    let mut conn = WaylandConn::new(true);
    let id = conn.create_window(800, 600);
    (conn, id)
}

#[test]
fn zero_size_configure_is_ignored() {
    let (mut conn, id) = conn_with_window();
    let resizing = vec![3u32];
    conn.on_configure(id, 0, 500, &resizing);
    conn.on_configure(id, 500, 0, &resizing);
    let rec = conn.registry.windows[0];
    assert_eq!(rec.width, 800);
    assert_eq!(rec.height, 600);
    assert_eq!(rec.buf_width, 800);
    assert_eq!(rec.buf_height, 600 + TITLEBAR_HEIGHT);
    assert_eq!(conn.poll_event(), EventPoll::NeedDispatch);
}

#[test]
fn acknowledged_resize_updates_buffer_and_coalesces() {
    let (mut conn, id) = conn_with_window();
    let resizing = vec![3u32];
    conn.on_configure(id, 400, 332, &resizing);
    conn.on_configure(id, 500, 432, &resizing);
    // The second resize overwrote the first one still waiting in the queue.
    let rec = conn.registry.windows[0];
    assert_eq!(rec.width, 500);
    assert_eq!(rec.height, 400);
    assert_eq!(rec.buf_width, 500);
    assert_eq!(rec.buf_height, 432);
    assert_eq!(
        conn.poll_event(),
        EventPoll::Ready(RawEvent {
            window: id,
            event: Event::Window(WindowEvent::Resize(500, 400)),
        })
    );
    assert_eq!(conn.poll_event(), EventPoll::NeedDispatch);
}

#[test]
fn removing_last_window_finishes_the_loop() {
    let (mut conn, id) = conn_with_window();
    assert_eq!(conn.poll_event(), EventPoll::NeedDispatch);
    conn.on_close(id);
    assert_eq!(conn.poll_event(), EventPoll::Finished);
    // Removal is idempotent: a second close changes nothing.
    conn.on_close(id);
    assert_eq!(conn.poll_event(), EventPoll::Finished);
}

#[test]
fn button_press_is_normalized_against_titlebar() {
    let (mut conn, id) = conn_with_window();
    conn.on_pointer_enter(id, 7);
    conn.on_pointer_motion(410, 40);
    conn.on_pointer_button(0x110, true, 8);
    conn.on_pointer_frame();
    assert_eq!(
        conn.poll_event(),
        EventPoll::Ready(RawEvent {
            window: id,
            event: Event::Widget(WidgetEvent::ButtonPress(Button::Left, 410, 8)),
        })
    );
}

#[test]
fn late_event_for_removed_window_is_dropped() {
    let (mut conn, id) = conn_with_window();
    let id2 = conn.create_window(640, 480);
    conn.on_close(id);
    // Late notifications still addressing the removed id change nothing.
    conn.on_pointer_enter(id, 9);
    assert_eq!(conn.pointer_window, 0);
    conn.on_configure(id, 300, 300, &vec![3u32]);
    conn.on_configure(id, 300, 300, &vec![4u32]);
    assert_eq!(conn.poll_event(), EventPoll::NeedDispatch);
    assert_eq!(conn.registry.windows.len(), 1);
    assert_eq!(conn.registry.windows[0].id, id2);
}

#[test]
fn repeated_activation_is_coalesced() {
    let (mut conn, id) = conn_with_window();
    let activated = vec![4u32];
    conn.on_configure(id, 0, 0, &activated);
    conn.on_configure(id, 0, 0, &activated);
    // Exactly one state change comes out of the two identical notifications.
    assert_eq!(
        conn.poll_event(),
        EventPoll::Ready(RawEvent {
            window: id,
            event: Event::Window(WindowEvent::StateChange(WindowState::Activated)),
        })
    );
    assert_eq!(conn.poll_event(), EventPoll::NeedDispatch);
}

#[test]
fn state_priority_maximized_over_activated() {
    let (mut conn, id) = conn_with_window();
    let both = vec![4u32, 1u32];
    conn.on_configure(id, 0, 0, &both);
    assert_eq!(
        conn.poll_event(),
        EventPoll::Ready(RawEvent {
            window: id,
            event: Event::Window(WindowEvent::StateChange(WindowState::Maximized)),
        })
    );
}

#[test]
fn key_events_carry_modifiers_and_window() {
    let (mut conn, id) = conn_with_window();
    conn.on_pointer_enter(id, 1);
    conn.on_key(0x61, true, true, false, false, false);
    conn.on_key(0x61, false, false, true, false, false);
    assert_eq!(
        conn.poll_event(),
        EventPoll::Ready(RawEvent {
            window: id,
            event: Event::Window(WindowEvent::KeyPress(Modifiers(1), Key::A)),
        })
    );
    assert_eq!(
        conn.poll_event(),
        EventPoll::Ready(RawEvent {
            window: id,
            event: Event::Window(WindowEvent::KeyRelease(Modifiers(2), Key::a)),
        })
    );
}

#[test]
fn unframed_pointer_queues_each_motion() {
    let mut conn = WaylandConn::new(false);
    let id = conn.create_window(800, 600);
    conn.on_pointer_enter(id, 1);
    conn.on_pointer_motion(10, 50);
    assert_eq!(
        conn.poll_event(),
        EventPoll::Ready(RawEvent {
            window: id,
            event: Event::Widget(WidgetEvent::Move(10, 18)),
        })
    );
}

#[test]
fn framed_pointer_latest_motion_wins() {
    let (mut conn, id) = conn_with_window();
    conn.on_pointer_enter(id, 1);
    conn.on_pointer_motion(10, 50);
    conn.on_pointer_motion(20, 60);
    conn.on_pointer_frame();
    assert_eq!(
        conn.poll_event(),
        EventPoll::Ready(RawEvent {
            window: id,
            event: Event::Widget(WidgetEvent::Move(20, 28)),
        })
    );
    assert_eq!(conn.poll_event(), EventPoll::NeedDispatch);
}

#[test]
fn close_button_release_destroys_window() {
    let (mut conn, id) = conn_with_window();
    conn.on_pointer_enter(id, 1);
    conn.on_pointer_motion(790, 16); // inside the title-bar close button
    let actions = conn.on_pointer_button(0x110, false, 2);
    assert!(actions.contains(&WlAction::DestroySurface { window: id }));
    conn.on_pointer_frame();
    // The window is gone and the loop finishes after the last queued event.
    assert_eq!(conn.registry.windows.len(), 0);
    assert!(!conn.running);
}

#[test]
fn titlebar_hit_regions() {
    assert_eq!(titlebar_hit(800, 790, 16), TitlebarHit::Close);
    assert_eq!(titlebar_hit(800, 752, 16), TitlebarHit::Minimize);
    assert_eq!(titlebar_hit(800, 720, 16), TitlebarHit::Maximize);
    assert_eq!(titlebar_hit(800, 400, 16), TitlebarHit::Elsewhere);
    assert_eq!(titlebar_hit(800, 790, 40), TitlebarHit::Elsewhere);
}

#[test]
fn edge_motion_requests_resize_arrow() {
    let (mut conn, id) = conn_with_window();
    let arrow_theme = {
        // A manager with the north-resize arrow loaded.
        let mut data = vec![0x58, 0x63, 0x75, 0x72];
        let fields = [
            16u32, 1, 1, // header
            0xfffd0002, 24, 28, // table entry
            36, 0xfffd0002, 24, 1, 24, 24, 2, 3, 0, // chunk header
        ];
        for f in fields {
            data.extend([(f >> 24) as u8, (f >> 16) as u8, (f >> 8) as u8, f as u8]);
        }
        data.extend(std::iter::repeat(0u8).take(24 * 24 * 4));
        data
    };
    conn.cursors
        .load_shape(parslay::cursor::CursorType::NResize, &arrow_theme, 24)
        .unwrap();
    conn.on_pointer_enter(id, 5);
    let actions = conn.on_pointer_motion(400, 2);
    assert!(actions.iter().any(|a| matches!(
        a,
        WlAction::CursorChange { shape: parslay::cursor::CursorType::NResize, .. }
    )));
    // A press while the resize arrow is shown starts an interactive resize.
    let press = conn.on_pointer_button(0x110, true, 9);
    assert!(press.iter().any(|a| matches!(a, WlAction::StartResize { .. })));
}

#[test]
fn buffer_size_and_packing() {
    assert_eq!(data_size(800, 600), 800 * 632 * 4);
    let src = vec![1u8, 2, 3, 4, 5, 6];
    let packed = pack_rgb(&src, 2);
    assert_eq!(packed, vec![1, 2, 3, 255, 4, 5, 6, 255]);
}
