//! The negotiation of the window's size: ask for the wanted size until the
//! window has it, then lock the window once and for all.

use vstd::prelude::*;

verus! {

/// The width that the window is to have, in logical pixels.
pub const WINDOW_WIDTH: u32 = 600;

/// The height that the window is to have, in logical pixels.
pub const WINDOW_HEIGHT: u32 = 600;

/// Whether the window has been locked.
#[derive(Clone, Copy, Debug, PartialEq, Eq, Hash, Structural)]
pub struct ResizeStopper(pub bool);

/// What the host is to do with the window.
#[derive(Clone, Copy, Debug, PartialEq, Eq, Hash, Structural)]
pub enum WindowOrder {
    /// Leave the window alone.
    Leave,
    /// Ask for this size.
    Resize { width: u32, height: u32 },
    /// Forbid resizing, and set the title.
    Lock,
}

impl Default for ResizeStopper {
    fn default() -> (s: ResizeStopper)
        ensures
            s == ResizeStopper(false),
    {
        ResizeStopper(false)
    }
}

impl ResizeStopper {
    /// What one step of the negotiation leads to, for a window of the size
    /// given: the new state and the order to the host. Once the window is
    /// locked it is left alone. Before that, a window of the wanted size is
    /// locked, and any other is asked to take the wanted size.
    pub open spec fn stepped(self, width: u32, height: u32) -> (ResizeStopper, WindowOrder) {
        if self.0 {
            (self, WindowOrder::Leave)
        } else if width == WINDOW_WIDTH && height == WINDOW_HEIGHT {
            (ResizeStopper(true), WindowOrder::Lock)
        } else {
            (self, WindowOrder::Resize { width: WINDOW_WIDTH, height: WINDOW_HEIGHT })
        }
    }
}

/// One step of the negotiation, for a window that is `width` by `height`
/// logical pixels now.
pub fn stop_resizing(stopper: &mut ResizeStopper, width: u32, height: u32) -> (order: WindowOrder)
    ensures
        (*final(stopper), order) == old(stopper).stepped(width, height),
{
    if stopper.0 {
        WindowOrder::Leave
    } else if width == WINDOW_WIDTH && height == WINDOW_HEIGHT {
        stopper.0 = true;
        WindowOrder::Lock
    } else {
        WindowOrder::Resize { width: WINDOW_WIDTH, height: WINDOW_HEIGHT }
    }
}

/// The title of the window.
pub fn window_title() -> (t: &'static str)
    ensures
        t@ == "Un-Divey"@,
{
    "Un-Divey"
}

} // verus!
