//! Classification of native window notifications and their routing to the
//! simulation and render queues.
use vstd::prelude::*;

use crate::event::{Rect, WindowEvent};

verus! {

/// Bit of a key message's flags that is set when the key was already down
/// before this message, i.e. the press is an autorepeat.
pub const KEY_WAS_DOWN_BIT: u32 = 0x4000_0000;

/// A native notification, already read out of the platform's message.
#[derive(Clone, Copy, Debug, PartialEq, Eq, Structural)]
pub enum Notification {
    Resize(Rect),
    Paint,
    PointerMove { x: i32, y: i32 },
    KeyDown { key: u16, flags: u32 },
    KeyUp { key: u16, flags: u32 },
    Destroy,
    MouseActivate,
    Other,
}

/// What the platform callback answers once the event is routed.
#[derive(Clone, Copy, Debug, PartialEq, Eq, Structural)]
pub enum Reply {
    /// The notification was consumed.
    Handled,
    /// The window is going away: ask the message loop to stop.
    Quit,
    /// Fall back to the platform's default handling.
    PassOn,
}

/// Where one notification goes.
#[derive(Clone, Copy, Debug, PartialEq, Eq, Structural)]
pub struct Dispatch {
    pub to_simulation: Option<WindowEvent>,
    pub to_render: Option<WindowEvent>,
    pub reply: Reply,
}

/// Whether a key message's flags mark an autorepeat press.
pub open spec fn is_repeat(flags: u32) -> bool {
    flags & KEY_WAS_DOWN_BIT != 0
}

/// Reads the autorepeat mark out of a key message's flags.
pub fn key_repeat_flag(flags: u32) -> (r: bool)
    ensures
        r == is_repeat(flags),
{
    flags & KEY_WAS_DOWN_BIT != 0
}

/// The routing table: resizes go to both queues, paints and pointer moves to
/// the render queue, key presses and releases to the simulation queue.
pub open spec fn routing(n: Notification) -> Dispatch {
    match n {
        Notification::Resize(rect) => Dispatch {
            to_simulation: Some(WindowEvent::Resize(rect)),
            to_render: Some(WindowEvent::Resize(rect)),
            reply: Reply::Handled,
        },
        Notification::Paint => Dispatch {
            to_simulation: None,
            to_render: Some(WindowEvent::Paint),
            reply: Reply::Handled,
        },
        Notification::PointerMove { x, y } => Dispatch {
            to_simulation: None,
            to_render: Some(WindowEvent::PointerMove { x, y }),
            reply: Reply::Handled,
        },
        Notification::KeyDown { key, flags } => Dispatch {
            to_simulation: Some(WindowEvent::KeyDown { key, repeat: is_repeat(flags) }),
            to_render: None,
            reply: Reply::Handled,
        },
        Notification::KeyUp { key, flags } => Dispatch {
            to_simulation: Some(WindowEvent::KeyUp { key }),
            to_render: None,
            reply: Reply::Handled,
        },
        Notification::Destroy => Dispatch { to_simulation: None, to_render: None, reply: Reply::Quit },
        Notification::MouseActivate => Dispatch {
            to_simulation: None,
            to_render: None,
            reply: Reply::Handled,
        },
        Notification::Other => Dispatch {
            to_simulation: None,
            to_render: None,
            reply: Reply::PassOn,
        },
    }
}

/// Classifies a notification. Until both queues are installed every
/// notification is dropped and left to the platform's default handling.
pub fn dispatch(n: Notification, queues_installed: bool) -> (r: Dispatch)
    ensures
        queues_installed ==> r == routing(n),
        !queues_installed ==> r == (Dispatch { to_simulation: None, to_render: None, reply: Reply::PassOn }),
{
    if !queues_installed {
        return Dispatch { to_simulation: None, to_render: None, reply: Reply::PassOn };
    }
    match n {
        Notification::Resize(rect) => Dispatch {
            to_simulation: Some(WindowEvent::Resize(rect)),
            to_render: Some(WindowEvent::Resize(rect)),
            reply: Reply::Handled,
        },
        Notification::Paint => Dispatch {
            to_simulation: None,
            to_render: Some(WindowEvent::Paint),
            reply: Reply::Handled,
        },
        Notification::PointerMove { x, y } => Dispatch {
            to_simulation: None,
            to_render: Some(WindowEvent::PointerMove { x, y }),
            reply: Reply::Handled,
        },
        Notification::KeyDown { key, flags } => Dispatch {
            to_simulation: Some(WindowEvent::KeyDown { key, repeat: key_repeat_flag(flags) }),
            to_render: None,
            reply: Reply::Handled,
        },
        Notification::KeyUp { key, flags: _ } => Dispatch {
            to_simulation: Some(WindowEvent::KeyUp { key }),
            to_render: None,
            reply: Reply::Handled,
        },
        Notification::Destroy => Dispatch { to_simulation: None, to_render: None, reply: Reply::Quit },
        Notification::MouseActivate => Dispatch {
            to_simulation: None,
            to_render: None,
            reply: Reply::Handled,
        },
        Notification::Other => Dispatch {
            to_simulation: None,
            to_render: None,
            reply: Reply::PassOn,
        },
    }
}

} // verus!
