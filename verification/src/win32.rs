//! The Win32 backend, as a state machine over plain values.
//!
//! Win32 follows a message-loop model: the system calls the window procedure
//! with a message code and two packed parameters, and the procedure queues
//! what the message means for the window. The system decorates windows, so
//! pointer coordinates need no title-bar normalization on this backend.

use vstd::prelude::*;

use crate::event::Button;
use crate::event::Event;
use crate::event::RawEvent;
use crate::event::WidgetEvent;
use crate::event::WindowEvent;
use crate::event::WindowState;
use crate::registry::WindowRecord;

verus! {

pub const WM_CREATE: u32 = 0x0001;
pub const WM_DESTROY: u32 = 0x0002;
pub const WM_SIZE: u32 = 0x0005;
pub const WM_ACTIVATE: u32 = 0x0006;
pub const WM_PAINT: u32 = 0x000f;
pub const WM_CLOSE: u32 = 0x0010;
pub const WM_MOUSEMOVE: u32 = 0x0200;
pub const WM_LBUTTONDOWN: u32 = 0x0201;
pub const WM_LBUTTONUP: u32 = 0x0202;
pub const WM_RBUTTONDOWN: u32 = 0x0204;
pub const WM_RBUTTONUP: u32 = 0x0205;
pub const WM_MBUTTONDOWN: u32 = 0x0207;
pub const WM_MBUTTONUP: u32 = 0x0208;
pub const WM_XBUTTONDOWN: u32 = 0x020b;
pub const WM_XBUTTONUP: u32 = 0x020c;

/// What the window procedure asks the caller to do with a message, besides
/// any event it queued.
#[derive(Clone, Copy, Debug, PartialEq, Eq, Structural)]
pub enum MessageOutcome {
    /// The message is handled; return zero to the system.
    Handled,
    /// A close request: destroy the native window.
    Destroy,
    /// The window is gone: post the quit message that ends the message loop.
    Quit,
    /// Not a message this core translates: let the system handle it.
    DefaultProc,
}

/// The button a button-down message's key-state word names.
pub open spec fn button_down_spec(wparam: u64) -> Button {
    if wparam & 1 > 0 {
        Button::Left
    } else if wparam & 2 > 0 {
        Button::Right
    } else if wparam & 0x10 > 0 {
        Button::Middle
    } else if wparam & 0x40 > 0 {
        Button::Forward
    } else if wparam & 0x20 > 0 {
        Button::Back
    } else {
        Button::Other
    }
}

/// The button a button-up message names: the three main buttons by message
/// code, the extra buttons by the high word.
pub open spec fn button_up_spec(msg: u32, wparam: u64) -> Button {
    if msg == WM_LBUTTONUP {
        Button::Left
    } else if msg == WM_RBUTTONUP {
        Button::Right
    } else if msg == WM_MBUTTONUP {
        Button::Middle
    } else if wparam & 0x20000 > 0 {
        Button::Forward
    } else if wparam & 0x10000 > 0 {
        Button::Back
    } else {
        Button::Other
    }
}

/// The pointer position packed into a mouse message's second parameter.
pub open spec fn lparam_x(lparam: u64) -> i32 {
    (lparam & 0xffff) as i32
}

pub open spec fn lparam_y(lparam: u64) -> i32 {
    ((lparam >> 16) & 0xffff) as i32
}

/// The event one window message queues for its window, against the window's
/// recorded state: activation and size messages derive a state change only
/// when it differs from the recorded one, a size message with a transient
/// zero extent is ignored, and mouse messages become widget events at the
/// packed coordinates.
pub open spec fn message_event_spec(rec: WindowRecord, msg: u32, wparam: u64, lparam: u64)
    -> Option<Event> {
    if msg == WM_ACTIVATE {
        let st = if wparam & 0xffff == 0 {
            WindowState::Suspended
        } else {
            WindowState::Activated
        };
        if st != rec.state {
            Some(Event::Window(WindowEvent::StateChange(st)))
        } else {
            None
        }
    } else if msg == WM_SIZE {
        if wparam == 2 {
            if rec.state != WindowState::Maximized {
                Some(Event::Window(WindowEvent::StateChange(WindowState::Maximized)))
            } else {
                None
            }
        } else if wparam == 0 {
            let w = (lparam & 0xffff) as u32;
            let h = ((lparam >> 16) & 0xffff) as u32;
            if w != 0 && h != 0 {
                Some(Event::Window(WindowEvent::Resize(w, h)))
            } else {
                None
            }
        } else {
            None
        }
    } else if msg == WM_LBUTTONDOWN || msg == WM_RBUTTONDOWN || msg == WM_MBUTTONDOWN || msg
        == WM_XBUTTONDOWN {
        Some(
            Event::Widget(
                WidgetEvent::ButtonPress(button_down_spec(wparam), lparam_x(lparam), lparam_y(lparam)),
            ),
        )
    } else if msg == WM_LBUTTONUP || msg == WM_RBUTTONUP || msg == WM_MBUTTONUP || msg
        == WM_XBUTTONUP {
        Some(
            Event::Widget(
                WidgetEvent::ButtonRelease(
                    button_up_spec(msg, wparam),
                    lparam_x(lparam),
                    lparam_y(lparam),
                ),
            ),
        )
    } else if msg == WM_MOUSEMOVE {
        Some(Event::Widget(WidgetEvent::Move(lparam_x(lparam), lparam_y(lparam))))
    } else {
        None
    }
}

/// One native window of this backend: its portable record and the events its
/// window procedure queued, front at 0.
pub struct Win32Window {
    pub record: WindowRecord,
    pub events: Vec<Event>,
}

impl Win32Window {
    pub open spec fn wf(self) -> bool {
        self.record.wf() && self.record.titlebar == 0
    }

    /// A fresh window of the requested client size with an empty queue.
    pub fn new(id: u64, width: u32, height: u32) -> (res: Win32Window)
        ensures
            res.wf(),
            res.record.id == id,
            res.record.width == width,
            res.record.height == height,
            res.events@.len() == 0,
    {
        Win32Window { record: WindowRecord::new(id, width, height, 0), events: Vec::new() }
    }

    /// The window procedure: translates one window message, queues the event
    /// it means (if any), keeps the record's size and state in step, and says
    /// what the caller must do with the message. State changes are queued
    /// only on a transition, and a transient zero size changes nothing.
    pub fn handle_message(&mut self, msg: u32, wparam: u64, lparam: u64) -> (res: MessageOutcome)
        requires
            old(self).wf(),
        ensures
            final(self).wf(),
            final(self).record.id == old(self).record.id,
            final(self).events@ == (match message_event_spec(old(self).record, msg, wparam, lparam) {
                Some(ev) => old(self).events@.push(ev),
                None => old(self).events@,
            }),
            final(self).record.state == (match message_event_spec(
                old(self).record,
                msg,
                wparam,
                lparam,
            ) {
                Some(Event::Window(WindowEvent::StateChange(st))) => st,
                _ => old(self).record.state,
            }),
            final(self).record.width == (match message_event_spec(
                old(self).record,
                msg,
                wparam,
                lparam,
            ) {
                Some(Event::Window(WindowEvent::Resize(w, _))) => w,
                _ => old(self).record.width,
            }),
            final(self).record.height == (match message_event_spec(
                old(self).record,
                msg,
                wparam,
                lparam,
            ) {
                Some(Event::Window(WindowEvent::Resize(_, h))) => h,
                _ => old(self).record.height,
            }),
            res == (if msg == WM_CLOSE {
                MessageOutcome::Destroy
            } else if msg == WM_DESTROY {
                MessageOutcome::Quit
            } else if msg == WM_CREATE || msg == WM_PAINT || msg == WM_ACTIVATE || msg == WM_SIZE
                || msg == WM_MOUSEMOVE || msg == WM_LBUTTONDOWN || msg == WM_RBUTTONDOWN || msg
                == WM_MBUTTONDOWN || msg == WM_XBUTTONDOWN || msg == WM_LBUTTONUP || msg
                == WM_RBUTTONUP || msg == WM_MBUTTONUP || msg == WM_XBUTTONUP {
                MessageOutcome::Handled
            } else {
                MessageOutcome::DefaultProc
            }),
    {
        if msg == WM_ACTIVATE {
            let st = if wparam & 0xffff == 0 {
                WindowState::Suspended
            } else {
                WindowState::Activated
            };
            if st != self.record.state {
                self.record.state = st;
                self.events.push(Event::Window(WindowEvent::StateChange(st)));
            }
            MessageOutcome::Handled
        } else if msg == WM_SIZE {
            if wparam == 2 {
                if self.record.state != WindowState::Maximized {
                    self.record.state = WindowState::Maximized;
                    self.events.push(
                        Event::Window(WindowEvent::StateChange(WindowState::Maximized)),
                    );
                }
            } else if wparam == 0 {
                let w = (lparam & 0xffff) as u32;
                let h = ((lparam >> 16) & 0xffff) as u32;
                if w != 0 && h != 0 {
                    proof {
                        assert(h <= 0xffffu32) by (bit_vector)
                            requires
                                h == ((lparam >> 16) & 0xffff) as u32,
                        ;
                    }
                    self.record.resize(w, h);
                    self.events.push(Event::Window(WindowEvent::Resize(w, h)));
                }
            }
            MessageOutcome::Handled
        } else if msg == WM_LBUTTONDOWN || msg == WM_RBUTTONDOWN || msg == WM_MBUTTONDOWN || msg
            == WM_XBUTTONDOWN {
            let button = if wparam & 1 > 0 {
                Button::Left
            } else if wparam & 2 > 0 {
                Button::Right
            } else if wparam & 0x10 > 0 {
                Button::Middle
            } else if wparam & 0x40 > 0 {
                Button::Forward
            } else if wparam & 0x20 > 0 {
                Button::Back
            } else {
                Button::Other
            };
            let x = (lparam & 0xffff) as i32;
            let y = ((lparam >> 16) & 0xffff) as i32;
            self.events.push(Event::Widget(WidgetEvent::ButtonPress(button, x, y)));
            MessageOutcome::Handled
        } else if msg == WM_LBUTTONUP || msg == WM_RBUTTONUP || msg == WM_MBUTTONUP || msg
            == WM_XBUTTONUP {
            let button = if msg == WM_LBUTTONUP {
                Button::Left
            } else if msg == WM_RBUTTONUP {
                Button::Right
            } else if msg == WM_MBUTTONUP {
                Button::Middle
            } else if wparam & 0x20000 > 0 {
                Button::Forward
            } else if wparam & 0x10000 > 0 {
                Button::Back
            } else {
                Button::Other
            };
            let x = (lparam & 0xffff) as i32;
            let y = ((lparam >> 16) & 0xffff) as i32;
            self.events.push(Event::Widget(WidgetEvent::ButtonRelease(button, x, y)));
            MessageOutcome::Handled
        } else if msg == WM_MOUSEMOVE {
            let x = (lparam & 0xffff) as i32;
            let y = ((lparam >> 16) & 0xffff) as i32;
            self.events.push(Event::Widget(WidgetEvent::Move(x, y)));
            MessageOutcome::Handled
        } else if msg == WM_CLOSE {
            MessageOutcome::Destroy
        } else if msg == WM_DESTROY {
            MessageOutcome::Quit
        } else if msg == WM_CREATE || msg == WM_PAINT {
            MessageOutcome::Handled
        } else {
            MessageOutcome::DefaultProc
        }
    }
}

/// The three bytes pixel `i` of the swapped buffer carries: the source
/// pixel's channels in reverse order, as the device bitmap layout wants.
pub open spec fn swapped_pixel(res: Seq<u8>, src: Seq<u8>, i: int) -> bool {
    &&& res[3 * i] == src[3 * i + 2]
    &&& res[3 * i + 1] == src[3 * i + 1]
    &&& res[3 * i + 2] == src[3 * i]
}

/// Reorders `count` pixels of a 3-byte-per-pixel buffer from RGB to the BGR
/// channel order the device bitmap expects.
pub fn swap_rgb_to_bgr(src: &Vec<u8>, count: usize) -> (res: Vec<u8>)
    requires
        3 * count <= src@.len(),
    ensures
        res@.len() == 3 * count,
        forall|i: int| 0 <= i < count ==> #[trigger] swapped_pixel(res@, src@, i),
{
    let mut res: Vec<u8> = Vec::new();
    let slen: usize = src.len();
    let mut i: usize = 0;
    while i < count
        invariant
            3 * count <= src@.len(),
            src@.len() == slen as int,
            i <= count,
            res@.len() == 3 * i,
            forall|j: int| 0 <= j < i as int ==> #[trigger] swapped_pixel(res@, src@, j),
        decreases count - i,
    {
        let ghost pre = res@;
        res.push(src[3 * i + 2]);
        res.push(src[3 * i + 1]);
        res.push(src[3 * i]);
        proof {
            assert(swapped_pixel(res@, src@, i as int));
            assert forall|j: int| 0 <= j < (i + 1) as int implies #[trigger] swapped_pixel(
                res@,
                src@,
                j,
            ) by {
                if j < i as int {
                    assert(swapped_pixel(pre, src@, j));
                    assert(res@[3 * j] == pre[3 * j]);
                    assert(res@[3 * j + 1] == pre[3 * j + 1]);
                    assert(res@[3 * j + 2] == pre[3 * j + 2]);
                }
            }
        }
        i = i + 1;
    }
    res
}

/// Index of the first window at or after `i` with a queued event, or -1.
pub open spec fn first_nonempty(ws: Seq<Win32Window>, i: int) -> int
    decreases ws.len() - i,
{
    if i < 0 || i >= ws.len() {
        -1
    } else if ws[i].events@.len() > 0 {
        i
    } else {
        first_nonempty(ws, i + 1)
    }
}

proof fn lemma_first_nonempty_hit(ws: Seq<Win32Window>, lo: int, i: int)
    requires
        0 <= lo <= i < ws.len(),
        forall|j: int| lo <= j < i ==> (#[trigger] ws[j]).events@.len() == 0,
        ws[i].events@.len() > 0,
    ensures
        first_nonempty(ws, lo) == i,
    decreases i - lo,
{
    if lo < i {
        lemma_first_nonempty_hit(ws, lo + 1, i);
    }
}

proof fn lemma_first_nonempty_miss(ws: Seq<Win32Window>, lo: int)
    requires
        0 <= lo,
        forall|j: int| lo <= j < ws.len() ==> (#[trigger] ws[j]).events@.len() == 0,
    ensures
        first_nonempty(ws, lo) == -1,
    decreases ws.len() - lo,
{
    if lo < ws.len() {
        lemma_first_nonempty_miss(ws, lo + 1);
    }
}

/// Pulls the next translated event after the system dispatched one message:
/// the front of the first window queue that holds one, addressed to that
/// window; the unknown event when every queue is empty, which is never an
/// error.
pub fn next_event(windows: &mut Vec<Win32Window>) -> (res: RawEvent)
    ensures
        final(windows)@.len() == old(windows)@.len(),
        first_nonempty(old(windows)@, 0) < 0 ==> res == (RawEvent {
            window: 0,
            event: Event::Unknown,
        }) && final(windows)@ == old(windows)@,
        first_nonempty(old(windows)@, 0) >= 0 ==> ({
            let i = first_nonempty(old(windows)@, 0);
            &&& res.window == old(windows)@[i].record.id
            &&& res.event == old(windows)@[i].events@[0]
            &&& final(windows)@ == old(windows)@.update(
                i,
                (Win32Window {
                    record: old(windows)@[i].record,
                    events: final(windows)@[i].events,
                }),
            )
            &&& final(windows)@[i].events@ == old(windows)@[i].events@.drop_first()
        }),
{
    let n = windows.len();
    let mut i: usize = 0;
    while i < n
        invariant
            n == windows@.len(),
            i <= n,
            windows@ == old(windows)@,
            forall|j: int| 0 <= j < i as int ==> (#[trigger] windows@[j]).events@.len() == 0,
        decreases n - i,
    {
        if windows[i].events.len() > 0 {
            proof {
                lemma_first_nonempty_hit(windows@, 0, i as int);
            }
            let ghost pre = windows@;
            let mut w = windows.remove(i);
            let id = w.record.id;
            let ev = w.events.remove(0);
            windows.insert(i, w);
            proof {
                assert(windows@ =~= pre.update(
                    i as int,
                    (Win32Window { record: pre[i as int].record, events: windows@[i as int].events }),
                ));
            }
            return RawEvent { window: id, event: ev };
        }
        i = i + 1;
    }
    proof {
        lemma_first_nonempty_miss(windows@, 0);
    }
    RawEvent { window: 0, event: Event::Unknown }
}

} // verus!
