//! Per-tick input reduction. The host framework reports the tick's raw
//! events; this module reduces them to the two booleans the state machine
//! acts on. A keyboard event carries `Some(edge)` where `edge` says whether
//! that event's key was pressed this tick (an edge, not a held state), or
//! `None` when the event carries no key code and is skipped. A mouse-button
//! event carries the same edge flag directly.

use vstd::prelude::*;

verus! {

/// Whether some button edge occurred: a keyboard event whose key was
/// just pressed, or a mouse-button event whose button was just pressed.
pub open spec fn spec_any_button(key_events: Seq<Option<bool>>, mouse_events: Seq<bool>) -> bool {
    (exists|i: int| 0 <= i < key_events.len() && key_events[i] == Some(true)) || (exists|i: int|
        0 <= i < mouse_events.len() && mouse_events[i])
}

/// Whether any input at all occurred: a button edge, a scroll event,
/// or a cursor-move event.
pub open spec fn spec_any_input(
    key_events: Seq<Option<bool>>,
    mouse_events: Seq<bool>,
    scroll_events: usize,
    cursor_events: usize,
) -> bool {
    spec_any_button(key_events, mouse_events) || scroll_events > 0 || cursor_events > 0
}

/// True exactly when some key-press or mouse-button-press edge occurred
/// this tick; keyboard events without a key code are skipped.
pub fn any_button(key_events: &Vec<Option<bool>>, mouse_events: &Vec<bool>) -> (r: bool)
    ensures
        r == spec_any_button(key_events@, mouse_events@),
{
    let mut i: usize = 0;
    while i < key_events.len()
        invariant
            i <= key_events@.len(),
            forall|j: int| 0 <= j < i ==> key_events@[j] != Some(true),
        decreases key_events@.len() - i,
    {
        if let Some(pressed) = key_events[i] {
            if pressed {
                return true;
            }
        }
        i = i + 1;
    }
    let mut i: usize = 0;
    while i < mouse_events.len()
        invariant
            i <= mouse_events@.len(),
            forall|j: int| 0 <= j < i ==> !mouse_events@[j],
        decreases mouse_events@.len() - i,
    {
        if mouse_events[i] {
            return true;
        }
        i = i + 1;
    }
    false
}

/// True exactly when any input occurred this tick: a button edge, or at
/// least one scroll or cursor-move event.
pub fn any_input(
    key_events: &Vec<Option<bool>>,
    mouse_events: &Vec<bool>,
    scroll_events: usize,
    cursor_events: usize,
) -> (r: bool)
    ensures
        r == spec_any_input(key_events@, mouse_events@, scroll_events, cursor_events),
{
    if any_button(key_events, mouse_events) {
        return true;
    }
    scroll_events > 0 || cursor_events > 0
}

} // verus!
