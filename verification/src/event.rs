//! The input event that flows from the HID decoders through the routers to the render
//! services.

use vstd::prelude::*;

verus! {

/// One input event, as produced by the HID decoders and consumed by the routers.
#[derive(Clone, Copy, Debug, PartialEq, Eq, Structural)]
pub enum Event {
    /// End-of-queue sentinel of the inline poll loop; carries nothing.
    Nothing,
    /// An ASCII key press.
    Key(u8),
    /// A key release.
    KeyUp(u8),
    /// Relative pointer motion.
    Mouse { x: i32, y: i32 },
    /// Absolute pointer position (HID tablet space).
    MouseAbsolute { x: i32, y: i32 },
    /// The full set of currently held pointer buttons.
    Button(u8),
    /// A scroll-wheel delta.
    Wheel(i32),
    /// The periodic heartbeat posted to the render task.
    Timer,
    /// A report the decoder could not classify.
    Unknown,
}

impl Event {
    /// True for a relative-motion report.
    pub fn is_mouse(&self) -> (r: bool)
        ensures
            r == (*self is Mouse),
    {
        match self {
            Event::Mouse { .. } => true,
            _ => false,
        }
    }
}

} // verus!
