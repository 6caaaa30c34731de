//! Scroll mode: what each key does once a place to scroll at is chosen.

use crate::click::ScrollDirection;
use crate::selection::{Modifiers, KEY_ESCAPE};
use vstd::prelude::*;

verus! {

/// How far the keys for "to the top" and "to the bottom" scroll.
pub const FAR: i32 = 10000;

/// A scroll that a key asks for.
#[derive(Debug, Clone, Copy, PartialEq, Eq, Structural)]
pub struct ScrollRequest {
    pub direction: ScrollDirection,
    pub amount: i32,
}

/// The state of scroll mode.
#[derive(Debug, Clone, Copy, PartialEq, Eq, Structural)]
pub struct ScrollState {
    /// Where to scroll.
    pub target_x: i32,
    pub target_y: i32,
    /// How far a key scrolls.
    pub scroll_step: i32,
    /// How far a key scrolls while control is held, and a page key always.
    pub page_step: i32,
    /// The modifier keys as last reported.
    pub modifiers: Modifiers,
    /// Whether scroll mode has been left.
    pub exit: bool,
}

/// Whether a key leaves scroll mode: Escape and `q`.
pub open spec fn leaves(keysym: u32) -> bool {
    keysym == KEY_ESCAPE || keysym == 0x71
}

/// The scroll that a key asks for, if any.
///
/// `h`, `j`, `k`, `l` and the arrow keys scroll left, down, up and right by
/// one step, or by a page while control is held. With control, `d` and `u`
/// scroll a page down and up. `g` scrolls far up, `G` far down.
pub open spec fn request_for(state: ScrollState, keysym: u32) -> Option<ScrollRequest> {
    let step = if state.modifiers.ctrl {
        state.page_step
    } else {
        state.scroll_step
    };
    if leaves(keysym) {
        None
    } else if keysym == 0x68 || keysym == 0xff51 {
        Some(ScrollRequest { direction: ScrollDirection::Left, amount: step })
    } else if keysym == 0x6a || keysym == 0xff54 {
        Some(ScrollRequest { direction: ScrollDirection::Down, amount: step })
    } else if keysym == 0x6b || keysym == 0xff52 {
        Some(ScrollRequest { direction: ScrollDirection::Up, amount: step })
    } else if keysym == 0x6c || keysym == 0xff53 {
        Some(ScrollRequest { direction: ScrollDirection::Right, amount: step })
    } else if keysym == 0x64 && state.modifiers.ctrl {
        Some(ScrollRequest { direction: ScrollDirection::Down, amount: state.page_step })
    } else if keysym == 0x75 && state.modifiers.ctrl {
        Some(ScrollRequest { direction: ScrollDirection::Up, amount: state.page_step })
    } else if keysym == 0x67 {
        Some(ScrollRequest { direction: ScrollDirection::Up, amount: FAR })
    } else if keysym == 0x47 {
        Some(ScrollRequest { direction: ScrollDirection::Down, amount: FAR })
    } else {
        None
    }
}

impl ScrollState {
    /// Scroll mode at (`target_x`, `target_y`), with no modifier held.
    pub fn new(target_x: i32, target_y: i32, scroll_step: i32, page_step: i32) -> (state: Self)
        ensures
            state == (ScrollState {
                target_x,
                target_y,
                scroll_step,
                page_step,
                modifiers: Modifiers { shift: false, ctrl: false },
                exit: false,
            }),
    {
        ScrollState {
            target_x,
            target_y,
            scroll_step,
            page_step,
            modifiers: Modifiers { shift: false, ctrl: false },
            exit: false,
        }
    }

    /// Records which modifier keys are held.
    pub fn update_modifiers(&mut self, modifiers: Modifiers)
        ensures
            *final(self) == (ScrollState { modifiers, ..*old(self) }),
    {
        self.modifiers = modifiers;
    }

    /// Takes a key press: leaves scroll mode, or says what to scroll.
    pub fn handle_key(&mut self, keysym: u32) -> (request: Option<ScrollRequest>)
        ensures
            request == request_for(*old(self), keysym),
            *final(self) == (ScrollState { exit: old(self).exit || leaves(keysym), ..*old(self) }),
    {
        let step = if self.modifiers.ctrl {
            self.page_step
        } else {
            self.scroll_step
        };
        if keysym == KEY_ESCAPE || keysym == 0x71 {
            self.exit = true;
            None
        } else if keysym == 0x68 || keysym == 0xff51 {
            Some(ScrollRequest { direction: ScrollDirection::Left, amount: step })
        } else if keysym == 0x6a || keysym == 0xff54 {
            Some(ScrollRequest { direction: ScrollDirection::Down, amount: step })
        } else if keysym == 0x6b || keysym == 0xff52 {
            Some(ScrollRequest { direction: ScrollDirection::Up, amount: step })
        } else if keysym == 0x6c || keysym == 0xff53 {
            Some(ScrollRequest { direction: ScrollDirection::Right, amount: step })
        } else if keysym == 0x64 && self.modifiers.ctrl {
            Some(ScrollRequest { direction: ScrollDirection::Down, amount: self.page_step })
        } else if keysym == 0x75 && self.modifiers.ctrl {
            Some(ScrollRequest { direction: ScrollDirection::Up, amount: self.page_step })
        } else if keysym == 0x67 {
            Some(ScrollRequest { direction: ScrollDirection::Up, amount: FAR })
        } else if keysym == 0x47 {
            Some(ScrollRequest { direction: ScrollDirection::Down, amount: FAR })
        } else {
            None
        }
    }
}

} // verus!
