//! Window-system integration and event-normalization core of a retained-mode
//! GUI toolkit.
//!
//! The crate models the portable layer between native display servers and a
//! widget tree: translating raw native notifications (protocol events, window
//! messages) into one portable event taxonomy, decoding the binary cursor-theme
//! format, tracking cursor-shape transitions, and managing the registry of
//! live windows that drives dispatch-loop termination.

use vstd::prelude::*;

pub mod cursor;
pub mod decode;
pub mod dispatch;
pub mod error;
pub mod event;
pub mod keymap;
pub mod registry;
pub mod wayland;
pub mod win32;
pub mod x11;
pub mod xkb;

verus! {

/// How a widget wants to be sized along one axis.
#[derive(Clone, Copy, Debug, PartialEq, Eq, Structural)]
pub enum Sizing {
    /// Size shouldn't change. May change if the size is too small.
    Fixed(u32),
    /// Stretch with weight proportional to the size. Set to 0 to fit without stretch.
    Stretch(u32),
    /// Stretch as much as possible, ignoring the given size.
    Fill,
}

impl Default for Sizing {
    fn default() -> (r: Self)
        ensures
            r == Sizing::Stretch(0u32),
    {
        Sizing::Stretch(0)
    }
}

/// A two-dimensional sizing request.
#[derive(Clone, Copy, Debug, PartialEq, Eq, Structural)]
pub struct Size {
    pub w: Sizing,
    pub h: Sizing,
}

impl Size {
    pub fn new(w: Sizing, h: Sizing) -> (r: Self)
        ensures
            r.w == w,
            r.h == h,
    {
        Size { w, h }
    }

    pub fn fixed(w: u32, h: u32) -> (r: Self)
        ensures
            r.w == Sizing::Fixed(w),
            r.h == Sizing::Fixed(h),
    {
        Size { w: Sizing::Fixed(w), h: Sizing::Fixed(h) }
    }

    pub fn stretch(w_fac: u32, h_fac: u32) -> (r: Self)
        ensures
            r.w == Sizing::Stretch(w_fac),
            r.h == Sizing::Stretch(h_fac),
    {
        Size { w: Sizing::Stretch(w_fac), h: Sizing::Stretch(h_fac) }
    }

    pub fn fill() -> (r: Self)
        ensures
            r.w == Sizing::Fill,
            r.h == Sizing::Fill,
    {
        Size { w: Sizing::Fill, h: Sizing::Fill }
    }
}

impl Default for Size {
    fn default() -> (r: Self)
        ensures
            r.w == Sizing::Stretch(0u32),
            r.h == Sizing::Stretch(0u32),
    {
        Size { w: Sizing::Stretch(0), h: Sizing::Stretch(0) }
    }
}

/// The name a window's frame style is looked up under.
#[derive(Clone, Debug, PartialEq, Eq)]
pub enum FrameType {
    Unframed,
    Box,
    Button,
    Frame,
    InputFrame,
    Custom(String),
}

impl FrameType {
    /// The key this frame type is registered under in a theme table.
    pub fn key(&self) -> (r: String)
        ensures
            r@ == self.key_spec(),
    {
        match self {
            FrameType::Unframed => "".to_string(),
            FrameType::Box => "Box".to_string(),
            FrameType::Button => "Button".to_string(),
            FrameType::Frame => "Frame".to_string(),
            FrameType::InputFrame => "InputFrame".to_string(),
            FrameType::Custom(s) => s.clone(),
        }
    }

    pub open spec fn key_spec(&self) -> Seq<char> {
        match self {
            FrameType::Unframed => ""@,
            FrameType::Box => "Box"@,
            FrameType::Button => "Button"@,
            FrameType::Frame => "Frame"@,
            FrameType::InputFrame => "InputFrame"@,
            FrameType::Custom(s) => s@,
        }
    }
}

} // verus!
