//! The line buffer: an ordered sequence of text lines, each a sequence of
//! characters with no trailing newline stored. The buffer always holds at
//! least one line; an empty file is one empty line.

use vstd::prelude::*;

verus! {

/// The mathematical view of a sequence of lines: each `Vec<char>` becomes a
/// `Seq<char>`.
pub open spec fn view_of(lines: Seq<Vec<char>>) -> Seq<Seq<char>> {
    Seq::new(lines.len(), |i: int| lines[i]@)
}

/// The persisted form of a sequence of lines: every line followed by a
/// single newline character.
pub open spec fn serialized(lines: Seq<Seq<char>>) -> Seq<char>
    decreases lines.len(),
{
    if lines.len() == 0 {
        Seq::empty()
    } else {
        lines[0].push('\n') + serialized(lines.drop_first())
    }
}

/// Serializing one more line appends that line and a newline.
pub proof fn lemma_serialized_push(lines: Seq<Seq<char>>, l: Seq<char>)
    ensures
        serialized(lines.push(l)) == serialized(lines) + l.push('\n'),
    decreases lines.len(),
{
    if lines.len() == 0 {
        assert(lines.push(l).drop_first() =~= lines);
        assert(lines.push(l)[0] == l);
        assert(serialized(lines.push(l)) == l.push('\n') + serialized(lines));
        assert(l.push('\n') + Seq::<char>::empty() =~= Seq::<char>::empty() + l.push('\n'));
    } else {
        assert(lines.push(l).drop_first() =~= lines.drop_first().push(l));
        assert(lines.push(l)[0] == lines[0]);
        assert(serialized(lines.push(l)) == lines[0].push('\n') + serialized(
            lines.drop_first().push(l),
        ));
        lemma_serialized_push(lines.drop_first(), l);
        assert(lines[0].push('\n') + (serialized(lines.drop_first()) + l.push('\n')) =~= (lines[0].push(
            '\n',
        ) + serialized(lines.drop_first())) + l.push('\n'));
    }
}

/// Splitting `rest` on newline characters, with `cur` the partial line read
/// so far; a final partial line is kept only if it is non-empty, so a text
/// ending in a newline yields no trailing empty line.
pub open spec fn parsed_rest(cur: Seq<char>, rest: Seq<char>) -> Seq<Seq<char>>
    decreases rest.len(),
{
    if rest.len() == 0 {
        if cur.len() == 0 {
            Seq::empty()
        } else {
            seq![cur]
        }
    } else if rest[0] == '\n' {
        seq![cur] + parsed_rest(Seq::empty(), rest.drop_first())
    } else {
        parsed_rest(cur.push(rest[0]), rest.drop_first())
    }
}

/// The lines of a text: split on newline characters, with no empty line
/// after a trailing newline.
pub open spec fn parsed(text: Seq<char>) -> Seq<Seq<char>> {
    parsed_rest(Seq::empty(), text)
}

/// Whether a line holds no newline character, as every line of an edited
/// buffer does: line breaks are line boundaries, never line content.
pub open spec fn newline_free(l: Seq<char>) -> bool {
    forall|k: int| 0 <= k < l.len() ==> l[k] != '\n'
}

/// Reading a newline-free prefix moves it whole into the partial line.
proof fn lemma_parsed_rest_skips_line(cur: Seq<char>, l: Seq<char>, tail: Seq<char>)
    requires
        newline_free(l),
    ensures
        parsed_rest(cur, l + tail) == parsed_rest(cur + l, tail),
    decreases l.len(),
{
    if l.len() == 0 {
        assert(l + tail =~= tail);
        assert(cur + l =~= cur);
    } else {
        assert((l + tail)[0] == l[0]);
        assert((l + tail).drop_first() =~= l.drop_first() + tail);
        lemma_parsed_rest_skips_line(cur.push(l[0]), l.drop_first(), tail);
        assert(cur.push(l[0]) + l.drop_first() =~= cur + l);
    }
}

/// A buffer whose lines hold no newline characters is reconstructed exactly
/// when its persisted text is split back into lines: saving and loading
/// round-trip.
pub proof fn lemma_serialize_parse_roundtrip(lines: Seq<Seq<char>>)
    requires
        forall|i: int| 0 <= i < lines.len() ==> newline_free(#[trigger] lines[i]),
    ensures
        parsed(serialized(lines)) == lines,
    decreases lines.len(),
{
    if lines.len() == 0 {
    } else {
        let rest = serialized(lines.drop_first());
        assert(lines[0].push('\n') + rest =~= lines[0] + (seq!['\n'] + rest));
        lemma_parsed_rest_skips_line(Seq::empty(), lines[0], seq!['\n'] + rest);
        assert(Seq::empty() + lines[0] =~= lines[0]);
        assert((seq!['\n'] + rest)[0] == '\n');
        assert((seq!['\n'] + rest).drop_first() =~= rest);
        lemma_serialize_parse_roundtrip(lines.drop_first());
        assert(seq![lines[0]] + lines.drop_first() =~= lines);
    }
}

/// Inserting a character at offset `c` of a line and then removing the
/// character at that same offset returns the line to its previous content:
/// insert and backspace are inverse at the same position.
pub proof fn lemma_insert_delete_inverse(s: Seq<char>, c: int, ch: char)
    requires
        0 <= c <= s.len(),
    ensures
        s.insert(c, ch).remove(c) == s,
{
    assert(s.insert(c, ch).remove(c) =~= s);
}

/// Splitting a line at offset `c` and then joining the two resulting lines
/// reconstructs the original buffer exactly: split and join are inverse.
pub proof fn lemma_split_join_roundtrip(lines: Seq<Seq<char>>, i: int, c: int)
    requires
        0 <= i < lines.len(),
        0 <= c <= lines[i].len(),
    ensures
        ({
            let split = lines.update(i, lines[i].subrange(0, c)).insert(
                i + 1,
                lines[i].subrange(c, lines[i].len() as int),
            );
            split.update(i, split[i] + split[i + 1]).remove(i + 1) == lines
        }),
{
    let split = lines.update(i, lines[i].subrange(0, c)).insert(
        i + 1,
        lines[i].subrange(c, lines[i].len() as int),
    );
    assert(split[i] + split[i + 1] =~= lines[i]);
    assert(split.update(i, split[i] + split[i + 1]).remove(i + 1) =~= lines);
}

/// An ordered sequence of text lines; owns all text content.
pub struct LineBuffer {
    pub lines: Vec<Vec<char>>,
}

impl LineBuffer {
    /// The buffer as a sequence of character sequences.
    pub open spec fn view(&self) -> Seq<Seq<char>> {
        view_of(self.lines@)
    }

    /// Well-formedness: the buffer always has at least one line.
    pub open spec fn wf(&self) -> bool {
        self.lines@.len() >= 1
    }

    /// Builds a buffer from the given lines; an empty input becomes the
    /// one-empty-line buffer.
    pub fn new(lines: Vec<Vec<char>>) -> (r: LineBuffer)
        ensures
            r.wf(),
            lines@.len() == 0 ==> r@ =~= seq![Seq::<char>::empty()],
            lines@.len() > 0 ==> r@ =~= view_of(lines@),
    {
        let mut lines = lines;
        if lines.len() == 0 {
            lines.push(Vec::new());
        }
        LineBuffer { lines }
    }

    /// Number of lines in the buffer.
    pub fn line_count(&self) -> (n: usize)
        ensures
            n == self@.len(),
    {
        self.lines.len()
    }

    /// Length in characters of line `line`.
    pub fn line_len(&self, line: usize) -> (n: usize)
        requires
            line < self@.len(),
        ensures
            n == self@[line as int].len(),
    {
        self.lines[line].len()
    }

    /// Inserts `ch` at offset `col` of line `line`, shifting subsequent
    /// characters right; a no-op if `col` exceeds the current line length.
    pub fn insert_char(&mut self, line: usize, col: usize, ch: char)
        requires
            line < old(self)@.len(),
        ensures
            final(self).wf() == old(self).wf(),
            col <= old(self)@[line as int].len() ==> final(self)@ =~= old(self)@.update(
                line as int,
                old(self)@[line as int].insert(col as int, ch),
            ),
            col > old(self)@[line as int].len() ==> final(self)@ =~= old(self)@,
    {
        if col <= self.lines[line].len() {
            let mut l = self.lines.remove(line);
            l.insert(col, ch);
            self.lines.insert(line, l);
        }
    }

    /// Removes the character before offset `col` of line `line` (backspace
    /// within a line); a no-op if `col` is 0 or exceeds the line length.
    pub fn delete_char(&mut self, line: usize, col: usize)
        requires
            line < old(self)@.len(),
        ensures
            final(self).wf() == old(self).wf(),
            1 <= col <= old(self)@[line as int].len() ==> final(self)@ =~= old(self)@.update(
                line as int,
                old(self)@[line as int].remove(col - 1),
            ),
            !(1 <= col <= old(self)@[line as int].len()) ==> final(self)@ =~= old(self)@,
    {
        if 1 <= col && col <= self.lines[line].len() {
            let mut l = self.lines.remove(line);
            l.remove(col - 1);
            self.lines.insert(line, l);
        }
    }

    /// Truncates line `line` at offset `col` and inserts a new line
    /// immediately after it holding the remainder.
    pub fn split_line(&mut self, line: usize, col: usize)
        requires
            line < old(self)@.len(),
            col <= old(self)@[line as int].len(),
        ensures
            final(self).wf(),
            final(self)@ =~= old(self)@.update(
                line as int,
                old(self)@[line as int].subrange(0, col as int),
            ).insert(line + 1, old(self)@[line as int].subrange(
                col as int,
                old(self)@[line as int].len() as int,
            )),
    {
        // The length read bounds `line + 1` within usize.
        let _n = self.lines.len();
        let mut l = self.lines.remove(line);
        let tail = l.split_off(col);
        self.lines.insert(line, l);
        self.lines.insert(line + 1, tail);
    }

    /// Appends the contents of line `line + 1` onto line `line` and removes
    /// line `line + 1`; a no-op on the last line (nothing to merge from).
    pub fn join_line(&mut self, line: usize)
        requires
            line < old(self)@.len(),
        ensures
            final(self).wf(),
            line + 1 < old(self)@.len() ==> final(self)@ =~= old(self)@.update(
                line as int,
                old(self)@[line as int] + old(self)@[line + 1],
            ).remove(line + 1),
            line + 1 == old(self)@.len() ==> final(self)@ =~= old(self)@,
    {
        let n = self.lines.len();
        if line + 1 < n {
            let mut next = self.lines.remove(line + 1);
            let mut cur = self.lines.remove(line);
            cur.append(&mut next);
            self.lines.insert(line, cur);
        }
    }

    /// Joins all lines with a trailing newline each, for writing to storage.
    pub fn to_text(&self) -> (r: Vec<char>)
        ensures
            r@ == serialized(self@),
    {
        let mut out: Vec<char> = Vec::new();
        let mut i: usize = 0;
        while i < self.lines.len()
            invariant
                i <= self.lines@.len(),
                out@ == serialized(self@.subrange(0, i as int)),
            decreases self.lines@.len() - i,
        {
            let ghost pre = out@;
            let mut j: usize = 0;
            while j < self.lines[i].len()
                invariant
                    i < self.lines@.len(),
                    j <= self@[i as int].len(),
                    out@ == pre + self@[i as int].subrange(0, j as int),
                decreases self@[i as int].len() - j,
            {
                let c = self.lines[i][j];
                out.push(c);
                assert(out@ =~= pre + self@[i as int].subrange(0, j + 1));
                j = j + 1;
            }
            out.push('\n');
            proof {
                lemma_serialized_push(self@.subrange(0, i as int), self@[i as int]);
                assert(self@.subrange(0, i + 1) =~= self@.subrange(0, i as int).push(
                    self@[i as int],
                ));
                assert(self@[i as int].subrange(0, self@[i as int].len() as int) =~= self@[i
                    as int]);
                assert(out@ =~= serialized(self@.subrange(0, i + 1)));
            }
            i = i + 1;
        }
        proof {
            assert(self@.subrange(0, self@.len() as int) =~= self@);
        }
        out
    }

    /// Builds a buffer from a text, splitting it into lines; an empty text
    /// becomes the one-empty-line buffer.
    pub fn from_text(text: &Vec<char>) -> (r: LineBuffer)
        ensures
            r.wf(),
            parsed(text@).len() == 0 ==> r@ =~= seq![Seq::<char>::empty()],
            parsed(text@).len() > 0 ==> r@ =~= parsed(text@),
    {
        let mut out: Vec<Vec<char>> = Vec::new();
        let mut cur: Vec<char> = Vec::new();
        let mut i: usize = 0;
        proof {
            assert(text@.subrange(0, text@.len() as int) =~= text@);
            assert(view_of(out@) + parsed_rest(cur@, text@) =~= parsed(text@));
        }
        while i < text.len()
            invariant
                i <= text@.len(),
                parsed(text@) == view_of(out@) + parsed_rest(
                    cur@,
                    text@.subrange(i as int, text@.len() as int),
                ),
            decreases text@.len() - i,
        {
            let ghost rest = text@.subrange(i as int, text@.len() as int);
            let c = text[i];
            proof {
                assert(rest[0] == c);
                assert(rest.drop_first() =~= text@.subrange(i + 1, text@.len() as int));
            }
            if c == '\n' {
                let ghost done = cur@;
                let ghost prev = out@;
                out.push(cur);
                cur = Vec::new();
                proof {
                    assert(view_of(out@) =~= view_of(prev) + seq![done]);
                    assert((view_of(prev) + seq![done]) + parsed_rest(
                        Seq::empty(),
                        rest.drop_first(),
                    ) =~= view_of(prev) + (seq![done] + parsed_rest(
                        Seq::empty(),
                        rest.drop_first(),
                    )));
                }
            } else {
                cur.push(c);
            }
            i = i + 1;
        }
        if cur.len() > 0 {
            out.push(cur);
        }
        LineBuffer::new(out)
    }
}

} // verus!
