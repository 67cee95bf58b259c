//! Building the synthetic pointer press that a key press turns into.

use vstd::prelude::*;
use crate::translate::ClickPoint;

verus! {

/// The pointer button that a click presses.
pub const PRIMARY_BUTTON: u32 = 1;

/// What the event loop keeps of a key press: when it happened, where the
/// pointer stood on the screen, the modifier state and the raw key code.
#[derive(Clone, Copy, Debug, PartialEq, Eq, Structural)]
pub struct KeyPress {
    pub time: u64,
    pub x_root: i32,
    pub y_root: i32,
    pub state: u32,
    pub keycode: u32,
}

/// A synthetic button press addressed to a window.
#[derive(Clone, Copy, Debug, PartialEq, Eq, Structural)]
pub struct ButtonPress {
    pub window: u64,
    pub root: u64,
    pub time: u64,
    pub x: i64,
    pub y: i64,
    pub x_root: i32,
    pub y_root: i32,
    pub state: u32,
    pub button: u32,
    /// Marks the event as sent by a client rather than made by the server.
    pub send_event: bool,
    pub same_screen: bool,
}

/// Whether a click point is to be sent: both coordinates strictly positive.
pub open spec fn is_dispatched(p: ClickPoint) -> bool {
    p.x > 0 && p.y > 0
}

/// The press that a click at `p` in `window` (whose root window is `root`)
/// sends for the key press `key`.
pub open spec fn button_press_of(key: KeyPress, window: u64, root: u64, p: ClickPoint) -> ButtonPress {
    ButtonPress {
        window,
        root,
        time: key.time,
        x: p.x,
        y: p.y,
        x_root: key.x_root,
        y_root: key.y_root,
        state: key.state,
        button: PRIMARY_BUTTON,
        send_event: true,
        same_screen: true,
    }
}

/// Builds the primary-button press for a click at `p`, or `None` where the
/// point is not to be sent (the no-click point among them).
pub fn make_click(key: &KeyPress, window: u64, root: u64, p: ClickPoint) -> (r: Option<ButtonPress>)
    ensures
        is_dispatched(p) ==> r == Some(button_press_of(*key, window, root, p)),
        !is_dispatched(p) ==> r is None,
{
    if p.x > 0 && p.y > 0 {
        Some(ButtonPress {
            window,
            root,
            time: key.time,
            x: p.x,
            y: p.y,
            x_root: key.x_root,
            y_root: key.y_root,
            state: key.state,
            button: PRIMARY_BUTTON,
            send_event: true,
            same_screen: true,
        })
    } else {
        None
    }
}

} // verus!
