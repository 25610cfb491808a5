//! Viewport windowing: a pure mapping from the selected index and the number
//! of rows available on screen to the contiguous `[begin, end]` range of
//! working-view indices to draw.
//!
//! `end` is an upper bound on what may be drawn, not a promise that an item
//! exists at that index: when the list is shorter than the viewport the
//! caller's enumeration simply stops at the last item.

use vstd::prelude::*;

verus! {

/// First index of the display window for a given selection and height.
pub open spec fn window_begin(selected: int, height: int) -> int {
    if selected >= height {
        selected + 1 - height
    } else {
        0
    }
}

/// Last index of the display window for a given selection and height.
pub open spec fn window_end(selected: int, height: int) -> int {
    if selected >= height {
        selected
    } else {
        height - 1
    }
}

/// Computes the display window over the working view: a window of exactly
/// `height` rows ending at the selection once the selection has scrolled past
/// the viewport, and a window anchored at the top otherwise.
pub fn window(selected: usize, height: usize) -> (w: (usize, usize))
    requires
        height >= 1 || selected < usize::MAX,
    ensures
        w.0 == window_begin(selected as int, height as int),
        w.1 == window_end(selected as int, height as int),
{
    if selected >= height {
        ((selected - height) + 1, selected)
    } else {
        (0, height - 1)
    }
}

/// How many items lie below the display window, clamped to zero when the
/// window already reaches the last item (or past it).
pub open spec fn more_below_count(count: int, end: int) -> int {
    if end >= count - 1 {
        0
    } else {
        count - 1 - end
    }
}

/// Computes the "N more below" counter from the total visible count and the
/// window's last index, clamping defensively when `end` reaches past the
/// last valid index.
pub fn more_below(count: usize, end: usize) -> (r: usize)
    ensures
        r == more_below_count(count as int, end as int),
{
    if count == 0 || end >= count - 1 {
        0
    } else {
        count - 1 - end
    }
}

/// Law: for any viewport of height at least one, the display window contains
/// the selected index, and it starts at a valid index.
pub proof fn lemma_window_covers_selection(selected: int, height: int)
    requires
        height >= 1,
        0 <= selected,
    ensures
        0 <= window_begin(selected, height),
        window_begin(selected, height) <= selected,
        selected <= window_end(selected, height),
{
}

/// Law: for any viewport of height at least one, the display window spans
/// exactly `height` indices, whichever branch was taken.
pub proof fn lemma_window_span(selected: int, height: int)
    requires
        height >= 1,
        0 <= selected,
    ensures
        window_end(selected, height) + 1 - window_begin(selected, height) == height,
{
}

} // verus!
