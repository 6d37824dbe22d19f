//! The decisions of the free-fly camera's input handling: when the cursor
//! is captured and released, and whether mouse look and movement apply.

use vstd::prelude::*;

verus! {

/// How a window holds the cursor.
#[derive(Clone, Copy, Debug, PartialEq, Eq, Structural)]
pub enum GrabMode {
    Free,
    Confined,
    Locked,
}

/// The cursor settings of one window.
#[derive(Clone, Copy, Debug, PartialEq, Eq, Structural)]
pub struct CursorState {
    pub grab: GrabMode,
    pub visible: bool,
}

/// A window as the camera systems see it.
#[derive(Clone, Copy, Debug, PartialEq, Eq, Structural)]
pub struct WindowCursor {
    pub focused: bool,
    pub grab: GrabMode,
}

/// What happened this frame: a mouse button (left or right) was pressed, or
/// Escape was.
#[derive(Clone, Copy, Debug, PartialEq, Eq, Structural)]
pub struct CursorInput {
    pub click: bool,
    pub escape: bool,
}

/// A click locks and hides the cursor of a focused window; Escape then
/// frees and shows it in every window, so Escape wins when both happen.
pub open spec fn cursor_after_spec(state: CursorState, focused: bool, input: CursorInput) -> CursorState {
    if input.escape {
        CursorState { grab: GrabMode::Free, visible: true }
    } else if input.click && focused {
        CursorState { grab: GrabMode::Locked, visible: false }
    } else {
        state
    }
}

/// The cursor settings of a window after this frame's input.
pub fn cursor_after_input(state: CursorState, focused: bool, input: CursorInput) -> (r: CursorState)
    ensures
        r == cursor_after_spec(state, focused, input),
{
    let mut next = state;
    if input.click && focused {
        next = CursorState { grab: GrabMode::Locked, visible: false };
    }
    if input.escape {
        next = CursorState { grab: GrabMode::Free, visible: true };
    }
    next
}

/// Some focused window holds the cursor locked.
pub open spec fn pointer_captured_spec(windows: Seq<WindowCursor>) -> bool {
    exists|i: int| 0 <= i < windows.len() && #[trigger] windows[i].focused && windows[i].grab == GrabMode::Locked
}

/// Mouse look and keyboard movement apply only while some focused window
/// holds the cursor locked.
pub fn pointer_captured(windows: &Vec<WindowCursor>) -> (r: bool)
    ensures
        r == pointer_captured_spec(windows@),
{
    let mut i: usize = 0;
    while i < windows.len()
        invariant
            i <= windows@.len(),
            forall|j: int| 0 <= j < i ==> !(#[trigger] windows@[j].focused && windows@[j].grab == GrabMode::Locked),
        decreases windows@.len() - i,
    {
        let w = windows[i];
        if w.focused && w.grab == GrabMode::Locked {
            return true;
        }
        i = i + 1;
    }
    false
}

} // verus!
