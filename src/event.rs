//! Typed window events and the key codes the viewer reacts to.
use vstd::prelude::*;

verus! {

/// Virtual-key code of the left arrow key.
pub const KEY_LEFT: u16 = 0x25;

/// Virtual-key code of the up arrow key.
pub const KEY_UP: u16 = 0x26;

/// Virtual-key code of the right arrow key.
pub const KEY_RIGHT: u16 = 0x27;

/// Virtual-key code of the down arrow key.
pub const KEY_DOWN: u16 = 0x28;

/// Client area of a window, in pixels.
#[derive(Clone, Copy, Debug, PartialEq, Eq, Structural)]
pub struct Rect {
    pub left: i32,
    pub top: i32,
    pub right: i32,
    pub bottom: i32,
}

impl Rect {
    pub open spec fn width_spec(self) -> int {
        self.right - self.left
    }

    pub open spec fn height_spec(self) -> int {
        self.bottom - self.top
    }

    /// Horizontal extent; negative when the edges are swapped.
    pub fn width(&self) -> (r: i64)
        ensures
            r == self.width_spec(),
    {
        self.right as i64 - self.left as i64
    }

    /// Vertical extent; negative when the edges are swapped.
    pub fn height(&self) -> (r: i64)
        ensures
            r == self.height_spec(),
    {
        self.bottom as i64 - self.top as i64
    }
}

/// An event as the drivers see it, copied by value into their queues.
#[derive(Clone, Copy, Debug, PartialEq, Eq, Structural)]
pub enum WindowEvent {
    Resize(Rect),
    Paint,
    PointerMove { x: i32, y: i32 },
    KeyDown { key: u16, repeat: bool },
    KeyUp { key: u16 },
}

} // verus!
