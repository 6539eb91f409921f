//! The viewport and the cursor translator: the window of the line buffer
//! that is rendered, and the conversion between a physical screen position
//! and a logical buffer position. The screen column includes a fixed left
//! margin (the line-number gutter), which is never a valid cursor column.

use vstd::prelude::*;

verus! {

/// The window of the line buffer currently rendered: `first_line` is the
/// topmost visible buffer line and `height` the number of screen rows
/// available for text, fixed for the session.
pub struct Viewport {
    pub first_line: usize,
    pub height: usize,
}

impl Viewport {
    /// The viewport is meaningful for a buffer of `line_count` lines when it
    /// has at least one row and starts inside the buffer.
    pub open spec fn wf(&self, line_count: int) -> bool {
        &&& self.height >= 1
        &&& (self.first_line as int) < line_count
    }

    /// How many buffer lines are visible: a whole window of them, or what is
    /// left of the buffer below `first_line` if that is less.
    pub open spec fn spec_visible_count(&self, line_count: int) -> int {
        if line_count - self.first_line < self.height {
            line_count - self.first_line
        } else {
            self.height as int
        }
    }

    /// Number of buffer lines visible in this viewport.
    pub fn visible_count(&self, line_count: usize) -> (n: usize)
        requires
            self.wf(line_count as int),
        ensures
            n == self.spec_visible_count(line_count as int),
            1 <= n <= self.height,
            self.first_line + n <= line_count,
    {
        let rem = line_count - self.first_line;
        if rem < self.height {
            rem
        } else {
            self.height
        }
    }
}

/// Converts a screen position (text-area row, absolute column) into the
/// logical buffer position it stands for, given the viewport and the fixed
/// gutter width. The cursor is never permitted inside the gutter, so the
/// screen column must be at least `margin`.
pub fn screen_to_logical(vp: &Viewport, screen_row: usize, screen_col: usize, margin: usize) -> (r:
    (usize, usize))
    requires
        margin <= screen_col,
        vp.first_line + screen_row <= usize::MAX,
    ensures
        r.0 == vp.first_line + screen_row,
        r.1 == screen_col - margin,
{
    (vp.first_line + screen_row, screen_col - margin)
}

/// Converts a logical buffer position back into the screen position it is
/// drawn at: the row relative to the first visible line, and the column
/// shifted right past the gutter.
pub fn logical_to_screen(vp: &Viewport, line: usize, col: usize, margin: usize) -> (r: (
    usize,
    usize,
))
    requires
        vp.first_line <= line,
        col + margin <= usize::MAX,
    ensures
        r.0 == line - vp.first_line,
        r.1 == col + margin,
{
    (line - vp.first_line, col + margin)
}

} // verus!
