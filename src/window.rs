//! Window identifiers and the decoded window sub-events.
use vstd::prelude::*;

verus! {

/// The native identifier of a window, as carried by events.
pub type Id = u32;

pub const SUB_SHOWN: u8 = 1;
pub const SUB_HIDDEN: u8 = 2;
pub const SUB_EXPOSED: u8 = 3;
pub const SUB_MOVED: u8 = 4;
pub const SUB_RESIZED: u8 = 5;
pub const SUB_SIZE_CHANGED: u8 = 6;
pub const SUB_MINIMIZED: u8 = 7;
pub const SUB_MAXIMIZED: u8 = 8;
pub const SUB_RESTORED: u8 = 9;
pub const SUB_ENTER: u8 = 10;
pub const SUB_LEAVE: u8 = 11;
pub const SUB_FOCUS_GAINED: u8 = 12;
pub const SUB_FOCUS_LOST: u8 = 13;
pub const SUB_CLOSE: u8 = 14;
pub const SUB_TAKE_FOCUS: u8 = 15;
pub const SUB_HIT_TEST: u8 = 16;

/// What happened to a window. A sub-tag that this decoder does not know is
/// kept as `Unrecognized`.
#[derive(Clone, Copy, Debug, PartialEq, Eq, Hash)]
pub enum Event {
    Shown,
    Hidden,
    Exposed,
    Moved([i32; 2]),
    Resized([i32; 2]),
    SizeChanged([i32; 2]),
    Minimized,
    Maximized,
    Restored,
    PointerFocus(bool),
    KeyboardFocus(bool),
    Close,
    TakeFocus,
    HitTest,
    Unrecognized(u8),
}

/// `e` is the window sub-event with sub-tag `sub` and the two data words
/// `d1`, `d2`.
pub open spec fn decodes_to(sub: u8, d1: i32, d2: i32, e: Event) -> bool {
    if sub == SUB_SHOWN {
        e == Event::Shown
    } else if sub == SUB_HIDDEN {
        e == Event::Hidden
    } else if sub == SUB_EXPOSED {
        e == Event::Exposed
    } else if sub == SUB_MOVED {
        e matches Event::Moved(p) && p@ == seq![d1, d2]
    } else if sub == SUB_RESIZED {
        e matches Event::Resized(p) && p@ == seq![d1, d2]
    } else if sub == SUB_SIZE_CHANGED {
        e matches Event::SizeChanged(p) && p@ == seq![d1, d2]
    } else if sub == SUB_MINIMIZED {
        e == Event::Minimized
    } else if sub == SUB_MAXIMIZED {
        e == Event::Maximized
    } else if sub == SUB_RESTORED {
        e == Event::Restored
    } else if sub == SUB_ENTER {
        e == Event::PointerFocus(true)
    } else if sub == SUB_LEAVE {
        e == Event::PointerFocus(false)
    } else if sub == SUB_FOCUS_GAINED {
        e == Event::KeyboardFocus(true)
    } else if sub == SUB_FOCUS_LOST {
        e == Event::KeyboardFocus(false)
    } else if sub == SUB_CLOSE {
        e == Event::Close
    } else if sub == SUB_TAKE_FOCUS {
        e == Event::TakeFocus
    } else if sub == SUB_HIT_TEST {
        e == Event::HitTest
    } else {
        e == Event::Unrecognized(sub)
    }
}

impl Event {
    /// Classifies a window sub-event by its sub-tag; every sub-tag gives an
    /// event, an unknown one `Unrecognized`.
    pub fn from_raw(sub: u8, d1: i32, d2: i32) -> (r: Event)
        ensures
            decodes_to(sub, d1, d2, r),
    {
        if sub == SUB_SHOWN {
            Event::Shown
        } else if sub == SUB_HIDDEN {
            Event::Hidden
        } else if sub == SUB_EXPOSED {
            Event::Exposed
        } else if sub == SUB_MOVED {
            Event::Moved([d1, d2])
        } else if sub == SUB_RESIZED {
            Event::Resized([d1, d2])
        } else if sub == SUB_SIZE_CHANGED {
            Event::SizeChanged([d1, d2])
        } else if sub == SUB_MINIMIZED {
            Event::Minimized
        } else if sub == SUB_MAXIMIZED {
            Event::Maximized
        } else if sub == SUB_RESTORED {
            Event::Restored
        } else if sub == SUB_ENTER {
            Event::PointerFocus(true)
        } else if sub == SUB_LEAVE {
            Event::PointerFocus(false)
        } else if sub == SUB_FOCUS_GAINED {
            Event::KeyboardFocus(true)
        } else if sub == SUB_FOCUS_LOST {
            Event::KeyboardFocus(false)
        } else if sub == SUB_CLOSE {
            Event::Close
        } else if sub == SUB_TAKE_FOCUS {
            Event::TakeFocus
        } else if sub == SUB_HIT_TEST {
            Event::HitTest
        } else {
            Event::Unrecognized(sub)
        }
    }
}

} // verus!
