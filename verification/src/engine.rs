//! The edit engine: a state machine over commands. The state is the line
//! buffer, the viewport and the cursor (screen row within the viewport plus
//! logical column); every transition keeps the cursor over a valid character
//! position or the line-end position, and scrolls the viewport only at its
//! edges, one line at a time.
//!
//! When a line split or merge crosses a viewport edge the engine scrolls
//! minimally so that the cursor's line stays visible.

use vstd::prelude::*;

use crate::buffer::LineBuffer;
use crate::command::Command;
use crate::command::Move;
use crate::viewport::Viewport;

verus! {

/// The smaller of two integers.
pub open spec fn min_int(a: int, b: int) -> int {
    if a <= b {
        a
    } else {
        b
    }
}

/// The movement rule in purely logical coordinates, tracking the cursor's
/// line and column by hand: vertical moves clamp the column to the target
/// line's length (clamp, don't wrap), Left and Right stop at the buffer's
/// ends, and Right at a line end wraps to the start of the next line.
pub open spec fn step_logical(lines: Seq<Seq<char>>, line: int, col: int, m: Move) -> (int, int) {
    match m {
        Move::Up => if line > 0 {
            (line - 1, min_int(col, lines[line - 1].len() as int))
        } else {
            (line, col)
        },
        Move::Down => if line < lines.len() - 1 {
            (line + 1, min_int(col, lines[line + 1].len() as int))
        } else {
            (line, col)
        },
        Move::Left => if col > 0 {
            (line, col - 1)
        } else if line > 0 {
            (line - 1, lines[line - 1].len() as int)
        } else {
            (line, col)
        },
        Move::Right => if col < lines[line].len() {
            (line, col + 1)
        } else if line < lines.len() - 1 {
            (line + 1, 0)
        } else {
            (line, col)
        },
    }
}

/// The index of the last visible screen row: one less than the number of
/// visible lines.
pub open spec fn last_visible_row(line_count: int, first: int, height: int) -> int {
    min_int(height, line_count - first) - 1
}

/// The movement rule as the engine performs it, over screen coordinates:
/// `first` is the viewport's first visible line, `row` the cursor's screen
/// row and `col` its logical column. The result is the new
/// (first, row, col). Scrolling happens exactly at a viewport edge, never
/// mid-screen.
pub open spec fn step_screen(
    lines: Seq<Seq<char>>,
    first: int,
    row: int,
    col: int,
    height: int,
    m: Move,
) -> (int, int, int) {
    let len = lines.len() as int;
    let maxr = last_visible_row(len, first, height);
    let line = first + row;
    match m {
        Move::Up => if row > 0 {
            (first, row - 1, min_int(col, lines[line - 1].len() as int))
        } else if first > 0 {
            (first - 1, row, min_int(col, lines[line - 1].len() as int))
        } else {
            (first, row, col)
        },
        Move::Down => if row < maxr {
            (first, row + 1, min_int(col, lines[line + 1].len() as int))
        } else if line < len - 1 {
            (first + 1, row, min_int(col, lines[line + 1].len() as int))
        } else {
            (first, row, col)
        },
        Move::Left => if col > 0 {
            (first, row, col - 1)
        } else if row > 0 {
            (first, row - 1, lines[line - 1].len() as int)
        } else if first > 0 {
            (first - 1, row, lines[line - 1].len() as int)
        } else {
            (first, row, col)
        },
        Move::Right => if col < lines[line].len() {
            (first, row, col + 1)
        } else if row < maxr {
            (first, row + 1, 0)
        } else if line < len - 1 {
            (first + 1, row, 0)
        } else {
            (first, row, col)
        },
    }
}

/// The complete editing state. The cursor is held as the screen row within
/// the viewport plus the logical column; the logical line is always derived
/// as `first_line + row`, so screen position and viewport offset stay the
/// single source of truth for the logical position.
pub struct EditorState {
    pub buffer: LineBuffer,
    pub viewport: Viewport,
    /// The cursor's screen row within the text area.
    pub row: usize,
    /// The cursor's logical column: a character offset from line start.
    pub col: usize,
}

impl EditorState {
    /// The buffer line the cursor is on.
    pub open spec fn cur_line(&self) -> int {
        self.viewport.first_line + self.row
    }

    /// Well-formedness: the buffer has a line, the cursor's row is inside
    /// the visible window, and its column is at most the current line's
    /// length (equality meaning "after the last character").
    pub open spec fn wf(&self) -> bool {
        &&& self.buffer.wf()
        &&& self.viewport.height >= 1
        &&& self.row < self.viewport.height
        &&& self.cur_line() < self.buffer@.len()
        &&& self.col <= self.buffer@[self.cur_line()].len()
    }

    /// A fresh editing session over `buffer`: viewport at the top of the
    /// buffer, cursor on the first line's first column.
    pub fn new(buffer: LineBuffer, height: usize) -> (r: EditorState)
        requires
            buffer.wf(),
            height >= 1,
        ensures
            r.wf(),
            r.buffer == buffer,
            r.viewport.first_line == 0,
            r.viewport.height == height,
            r.row == 0,
            r.col == 0,
    {
        EditorState { buffer, viewport: Viewport { first_line: 0, height }, row: 0, col: 0 }
    }

    /// Checks the state invariant at run time.
    pub fn check_invariant(&self) -> (b: bool)
        ensures
            b == self.wf(),
    {
        let len = self.buffer.lines.len();
        if len == 0 {
            return false;
        }
        if self.viewport.height == 0 {
            return false;
        }
        if self.row >= self.viewport.height {
            return false;
        }
        if self.viewport.first_line >= len {
            return false;
        }
        if self.row >= len - self.viewport.first_line {
            return false;
        }
        let line = self.viewport.first_line + self.row;
        self.col <= self.buffer.lines[line].len()
    }

    /// The buffer line index the cursor is on.
    pub fn current_line(&self) -> (n: usize)
        requires
            self.wf(),
        ensures
            n == self.cur_line(),
    {
        // The length read bounds `first_line + row` within usize.
        let _len = self.buffer.line_count();
        self.viewport.first_line + self.row
    }

    /// Applies one movement command. The cursor's logical position changes
    /// exactly as the hand-tracked rule `step_logical` says (no drift between
    /// the screen-derived and the logical position), the buffer is untouched,
    /// and the viewport's first visible line moves by at most one, staying
    /// inside the buffer.
    pub fn do_move(&mut self, m: Move)
        requires
            old(self).wf(),
        ensures
            final(self).wf(),
            final(self).buffer == old(self).buffer,
            final(self).viewport.height == old(self).viewport.height,
            (
                final(self).viewport.first_line as int,
                final(self).row as int,
                final(self).col as int,
            ) == step_screen(
                old(self).buffer@,
                old(self).viewport.first_line as int,
                old(self).row as int,
                old(self).col as int,
                old(self).viewport.height as int,
                m,
            ),
            old(self).viewport.first_line - 1 <= final(self).viewport.first_line <= old(
                self,
            ).viewport.first_line + 1,
            final(self).viewport.first_line < final(self).buffer@.len(),
    {
        let len = self.buffer.line_count();
        let first = self.viewport.first_line;
        let rem = len - first;
        let visible = if self.viewport.height < rem {
            self.viewport.height
        } else {
            rem
        };
        let max_h = visible - 1;
        match m {
            Move::Up => {
                if self.row > 0 {
                    let tl = self.buffer.line_len(first + self.row - 1);
                    self.row = self.row - 1;
                    if self.col > tl {
                        self.col = tl;
                    }
                } else if first > 0 {
                    let tl = self.buffer.line_len(first - 1);
                    self.viewport.first_line = first - 1;
                    if self.col > tl {
                        self.col = tl;
                    }
                }
            },
            Move::Down => {
                if self.row < max_h {
                    let tl = self.buffer.line_len(first + self.row + 1);
                    self.row = self.row + 1;
                    if self.col > tl {
                        self.col = tl;
                    }
                } else if first + self.row < len - 1 {
                    let tl = self.buffer.line_len(first + self.row + 1);
                    self.viewport.first_line = first + 1;
                    if self.col > tl {
                        self.col = tl;
                    }
                }
            },
            Move::Right => {
                let cl = self.buffer.line_len(first + self.row);
                if self.col < cl {
                    self.col = self.col + 1;
                } else if self.row < max_h {
                    self.row = self.row + 1;
                    self.col = 0;
                } else if first + self.row < len - 1 {
                    self.viewport.first_line = first + 1;
                    self.col = 0;
                }
            },
            Move::Left => {
                if self.col > 0 {
                    self.col = self.col - 1;
                } else if self.row > 0 {
                    let tl = self.buffer.line_len(first + self.row - 1);
                    self.row = self.row - 1;
                    self.col = tl;
                } else if first > 0 {
                    let tl = self.buffer.line_len(first - 1);
                    self.viewport.first_line = first - 1;
                    self.col = tl;
                }
            },
        }
    }

    /// Inserts `ch` at the cursor and advances the cursor one column right;
    /// the viewport does not move.
    pub fn do_insert(&mut self, ch: char)
        requires
            old(self).wf(),
        ensures
            final(self).wf(),
            final(self).buffer@ == old(self).buffer@.update(
                old(self).cur_line(),
                old(self).buffer@[old(self).cur_line()].insert(old(self).col as int, ch),
            ),
            final(self).col == old(self).col + 1,
            final(self).row == old(self).row,
            final(self).viewport == old(self).viewport,
    {
        let line = self.current_line();
        self.buffer.insert_char(line, self.col, ch);
        // The grown line's length bounds `col + 1` within usize.
        let _n = self.buffer.line_len(line);
        self.col = self.col + 1;
    }

    /// Splits the current line at the cursor and places the cursor at column
    /// 0 of the new line, scrolling the viewport down one line if the cursor
    /// was already on the last screen row so that its line stays visible.
    pub fn do_newline(&mut self)
        requires
            old(self).wf(),
        ensures
            final(self).wf(),
            final(self).buffer@ == old(self).buffer@.update(
                old(self).cur_line(),
                old(self).buffer@[old(self).cur_line()].subrange(0, old(self).col as int),
            ).insert(
                old(self).cur_line() + 1,
                old(self).buffer@[old(self).cur_line()].subrange(
                    old(self).col as int,
                    old(self).buffer@[old(self).cur_line()].len() as int,
                ),
            ),
            final(self).cur_line() == old(self).cur_line() + 1,
            final(self).col == 0,
            final(self).viewport.height == old(self).viewport.height,
            old(self).row + 1 < old(self).viewport.height ==> final(self).row == old(self).row + 1
                && final(self).viewport.first_line == old(self).viewport.first_line,
            old(self).row + 1 == old(self).viewport.height ==> final(self).row == old(self).row
                && final(self).viewport.first_line == old(self).viewport.first_line + 1,
            final(self).viewport.first_line <= old(self).viewport.first_line + 1,
            final(self).viewport.first_line < final(self).buffer@.len(),
    {
        // The length read bounds the scrolled `first_line` within usize.
        let _len = self.buffer.line_count();
        let line = self.current_line();
        self.buffer.split_line(line, self.col);
        if self.row + 1 < self.viewport.height {
            self.row = self.row + 1;
        } else {
            self.viewport.first_line = self.viewport.first_line + 1;
        }
        self.col = 0;
    }

    /// Backspace: with the cursor mid-line, deletes the character before it
    /// and retreats one column. At column 0 of a line other than the first,
    /// joins the line onto the previous one and places the cursor at that
    /// line's former end, scrolling the viewport up one line if the merge
    /// point was the first visible row. At the very start of the buffer,
    /// a no-op.
    pub fn do_backspace(&mut self)
        requires
            old(self).wf(),
        ensures
            final(self).wf(),
            final(self).viewport.height == old(self).viewport.height,
            old(self).col > 0 ==> ({
                &&& final(self).buffer@ == old(self).buffer@.update(
                    old(self).cur_line(),
                    old(self).buffer@[old(self).cur_line()].remove(old(self).col - 1),
                )
                &&& final(self).col == old(self).col - 1
                &&& final(self).row == old(self).row
                &&& final(self).viewport == old(self).viewport
            }),
            old(self).col == 0 && old(self).cur_line() > 0 ==> ({
                &&& final(self).buffer@ == old(self).buffer@.update(
                    old(self).cur_line() - 1,
                    old(self).buffer@[old(self).cur_line() - 1]
                        + old(self).buffer@[old(self).cur_line()],
                ).remove(old(self).cur_line())
                &&& final(self).cur_line() == old(self).cur_line() - 1
                &&& final(self).col == old(self).buffer@[old(self).cur_line() - 1].len()
                &&& old(self).row > 0 ==> final(self).row == old(self).row - 1
                    && final(self).viewport == old(self).viewport
                &&& old(self).row == 0 ==> final(self).row == 0
                    && final(self).viewport.first_line == old(self).viewport.first_line - 1
            }),
            old(self).col == 0 && old(self).cur_line() == 0 ==> *final(self) == *old(self),
            old(self).viewport.first_line - 1 <= final(self).viewport.first_line,
            final(self).viewport.first_line <= old(self).viewport.first_line,
            final(self).viewport.first_line < final(self).buffer@.len(),
    {
        let line = self.current_line();
        if self.col > 0 {
            self.buffer.delete_char(line, self.col);
            self.col = self.col - 1;
        } else if line > 0 {
            let prev_len = self.buffer.line_len(line - 1);
            self.buffer.join_line(line - 1);
            if self.row > 0 {
                self.row = self.row - 1;
            } else {
                self.viewport.first_line = self.viewport.first_line - 1;
            }
            self.col = prev_len;
        }
    }

    /// Applies one resolved command to the editing state. `Save` and `Exit`
    /// do not change the state: persisting and terminating are the caller's
    /// side effects.
    pub fn apply(&mut self, cmd: &Command)
        requires
            old(self).wf(),
        ensures
            final(self).wf(),
            final(self).viewport.height == old(self).viewport.height,
            old(self).viewport.first_line - 1 <= final(self).viewport.first_line,
            final(self).viewport.first_line <= old(self).viewport.first_line + 1,
            final(self).viewport.first_line < final(self).buffer@.len(),
            cmd matches Command::Insert(ch) ==> ({
                &&& final(self).buffer@ == old(self).buffer@.update(
                    old(self).cur_line(),
                    old(self).buffer@[old(self).cur_line()].insert(old(self).col as int, *ch),
                )
                &&& final(self).col == old(self).col + 1
                &&& final(self).cur_line() == old(self).cur_line()
            }),
            cmd matches Command::Move(m) ==> ({
                &&& final(self).buffer == old(self).buffer
                &&& (
                    final(self).viewport.first_line as int,
                    final(self).row as int,
                    final(self).col as int,
                ) == step_screen(
                    old(self).buffer@,
                    old(self).viewport.first_line as int,
                    old(self).row as int,
                    old(self).col as int,
                    old(self).viewport.height as int,
                    *m,
                )
            }),
            cmd == Command::NewLine ==> ({
                &&& final(self).buffer@ == old(self).buffer@.update(
                    old(self).cur_line(),
                    old(self).buffer@[old(self).cur_line()].subrange(0, old(self).col as int),
                ).insert(
                    old(self).cur_line() + 1,
                    old(self).buffer@[old(self).cur_line()].subrange(
                        old(self).col as int,
                        old(self).buffer@[old(self).cur_line()].len() as int,
                    ),
                )
                &&& final(self).cur_line() == old(self).cur_line() + 1
                &&& final(self).col == 0
            }),
            cmd == Command::BackSpace && old(self).col > 0 ==> ({
                &&& final(self).buffer@ == old(self).buffer@.update(
                    old(self).cur_line(),
                    old(self).buffer@[old(self).cur_line()].remove(old(self).col - 1),
                )
                &&& final(self).col == old(self).col - 1
                &&& final(self).cur_line() == old(self).cur_line()
            }),
            cmd == Command::BackSpace && old(self).col == 0 && old(self).cur_line() > 0 ==> ({
                &&& final(self).buffer@ == old(self).buffer@.update(
                    old(self).cur_line() - 1,
                    old(self).buffer@[old(self).cur_line() - 1]
                        + old(self).buffer@[old(self).cur_line()],
                ).remove(old(self).cur_line())
                &&& final(self).cur_line() == old(self).cur_line() - 1
                &&& final(self).col == old(self).buffer@[old(self).cur_line() - 1].len()
            }),
            cmd == Command::BackSpace && old(self).col == 0 && old(self).cur_line() == 0
                ==> *final(self) == *old(self),
            cmd == Command::Save || cmd == Command::Exit ==> *final(self) == *old(self),
    {
        match cmd {
            Command::Insert(c) => self.do_insert(*c),
            Command::Move(m) => self.do_move(*m),
            Command::NewLine => self.do_newline(),
            Command::BackSpace => self.do_backspace(),
            Command::Save => (),
            Command::Exit => (),
        }
    }
}

/// Where a sequence of movement commands lands, tracking the logical line
/// and column by hand, one command at a time.
pub open spec fn replay(lines: Seq<Seq<char>>, line: int, col: int, moves: Seq<Move>) -> (int, int)
    decreases moves.len(),
{
    if moves.len() == 0 {
        (line, col)
    } else {
        let (l2, c2) = step_logical(lines, line, col, moves[0]);
        replay(lines, l2, c2, moves.drop_first())
    }
}

impl EditorState {
    /// Applies a sequence of movement commands. The logical cursor position
    /// afterwards equals the position `replay` computes by tracking line and
    /// column directly: the screen-derived position never drifts from the
    /// logical one, however the moves scroll the viewport.
    pub fn apply_moves(&mut self, moves: &Vec<Move>)
        requires
            old(self).wf(),
        ensures
            final(self).wf(),
            final(self).buffer == old(self).buffer,
            final(self).viewport.height == old(self).viewport.height,
            (final(self).cur_line(), final(self).col as int) == replay(
                old(self).buffer@,
                old(self).cur_line(),
                old(self).col as int,
                moves@,
            ),
    {
        let ghost buf0 = self.buffer;
        let ghost h0 = self.viewport.height;
        let ghost line0 = self.cur_line();
        let ghost col0 = self.col as int;
        let mut i: usize = 0;
        proof {
            assert(moves@.subrange(0, moves@.len() as int) =~= moves@);
        }
        while i < moves.len()
            invariant
                i <= moves@.len(),
                self.wf(),
                self.buffer == buf0,
                self.viewport.height == h0,
                replay(buf0@, line0, col0, moves@) == replay(
                    buf0@,
                    self.cur_line(),
                    self.col as int,
                    moves@.subrange(i as int, moves@.len() as int),
                ),
            decreases moves@.len() - i,
        {
            let ghost pre = *self;
            let ghost rest = moves@.subrange(i as int, moves@.len() as int);
            self.do_move(moves[i]);
            proof {
                lemma_screen_tracks_logical(
                    buf0@,
                    pre.viewport.first_line as int,
                    pre.row as int,
                    pre.col as int,
                    h0 as int,
                    moves@[i as int],
                );
                assert(rest[0] == moves@[i as int]);
                assert(rest.drop_first() =~= moves@.subrange(i + 1, moves@.len() as int));
            }
            i = i + 1;
        }
        proof {
            assert(moves@.subrange(moves@.len() as int, moves@.len() as int)
                =~= Seq::<Move>::empty());
        }
    }

    /// The buffer line drawn on screen row `r` of the text area: what the
    /// renderer repaints, with `first_line + r` as its gutter label.
    pub fn visible_line(&self, r: usize) -> (l: &Vec<char>)
        requires
            self.wf(),
            r < self.viewport.spec_visible_count(self.buffer@.len() as int),
        ensures
            l@ == self.buffer@[self.viewport.first_line + r],
    {
        // The length read bounds `first_line + r` within usize.
        let _len = self.buffer.line_count();
        &self.buffer.lines[self.viewport.first_line + r]
    }
}

/// The screen-level movement rule realizes the hand-tracked logical rule
/// exactly: projecting its result to (line, column) gives `step_logical`.
pub proof fn lemma_screen_tracks_logical(
    lines: Seq<Seq<char>>,
    first: int,
    row: int,
    col: int,
    height: int,
    m: Move,
)
    requires
        lines.len() >= 1,
        height >= 1,
        0 <= first,
        0 <= row < height,
        first + row < lines.len(),
        0 <= col <= lines[first + row].len(),
    ensures
        ({
            let (f2, r2, c2) = step_screen(lines, first, row, col, height, m);
            (f2 + r2, c2) == step_logical(lines, first + row, col, m)
        }),
{
}

/// Moving down onto a shorter line clamps the column to that line's length
/// rather than preserving the original column or wrapping.
pub proof fn lemma_down_clamps_column(lines: Seq<Seq<char>>, line: int, col: int)
    requires
        0 <= line < lines.len() - 1,
        lines[line + 1].len() < col,
    ensures
        step_logical(lines, line, col, Move::Down).1 == lines[line + 1].len(),
{
}

} // verus!
