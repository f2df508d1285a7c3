//! The line buffer: the text of one note as a non-empty sequence of lines,
//! with a cursor and a scroll offset.

use vstd::prelude::*;
use crate::lines::{join_lines, join_text, split_lines, split_text};
use crate::text::{line_views, string_of, text_views};

verus! {

/// A direction of cursor movement.
#[derive(Clone, Copy, Debug, PartialEq, Eq, Structural)]
pub enum Direction {
    Left,
    Right,
    Up,
    Down,
}

/// The smaller of two integers.
pub open spec fn min_int(a: int, b: int) -> int {
    if a <= b {
        a
    } else {
        b
    }
}

/// The mathematical content of a [`LineBuffer`].
pub struct BufferView {
    pub lines: Seq<Seq<char>>,
    pub row: int,
    pub col: int,
    pub scroll: int,
}

impl BufferView {
    /// There is at least one line, the cursor is on a line and within it (or
    /// just past its end), and the scroll offset is not below the cursor row.
    pub open spec fn wf(self) -> bool {
        &&& 0 <= self.row < self.lines.len()
        &&& 0 <= self.col <= self.lines[self.row].len()
        &&& 0 <= self.scroll <= self.row
    }

    /// The line under the cursor.
    pub open spec fn current(self) -> Seq<char> {
        self.lines[self.row]
    }

    /// A buffer that has just loaded `text`.
    pub open spec fn loaded(text: Seq<char>) -> BufferView {
        BufferView { lines: split_lines(text), row: 0, col: 0, scroll: 0 }
    }

    /// The text of the buffer.
    pub open spec fn text(self) -> Seq<char> {
        join_lines(self.lines)
    }

    /// The cursor placed at (`row`, `col`), the scroll offset lowered to
    /// `row` where it was beyond it.
    pub open spec fn at(self, row: int, col: int) -> BufferView {
        BufferView { row, col, scroll: min_int(self.scroll, row), ..self }
    }

    /// The buffer after one cursor movement. Left and right stay on the
    /// line; up and down stay in the buffer and keep the column, clamped to
    /// the length of the destination line.
    pub open spec fn moved(self, d: Direction) -> BufferView {
        match d {
            Direction::Left => if self.col > 0 {
                self.at(self.row, self.col - 1)
            } else {
                self
            },
            Direction::Right => if self.col < self.current().len() {
                self.at(self.row, self.col + 1)
            } else {
                self
            },
            Direction::Up => if self.row > 0 {
                self.at(self.row - 1, min_int(self.col, self.lines[self.row - 1].len() as int))
            } else {
                self
            },
            Direction::Down => if self.row + 1 < self.lines.len() {
                self.at(self.row + 1, min_int(self.col, self.lines[self.row + 1].len() as int))
            } else {
                self
            },
        }
    }

    /// The buffer after `c` is inserted at the cursor.
    pub open spec fn inserted(self, c: char) -> BufferView {
        BufferView {
            lines: self.lines.update(self.row, self.current().insert(self.col, c)),
            col: self.col + 1,
            ..self
        }
    }

    /// The buffer after the current line is split at the cursor.
    pub open spec fn split_at_cursor(self) -> BufferView {
        let head = self.current().subrange(0, self.col);
        let tail = self.current().subrange(self.col, self.current().len() as int);
        BufferView {
            lines: self.lines.update(self.row, head).insert(self.row + 1, tail),
            row: self.row + 1,
            col: 0,
            ..self
        }
    }

    /// The buffer after a backward delete: the character before the cursor
    /// goes; at the start of a line other than the first, the line is joined
    /// to the one before it; at the start of the buffer nothing changes.
    pub open spec fn backspaced(self) -> BufferView {
        if self.col > 0 {
            BufferView {
                lines: self.lines.update(self.row, self.current().remove(self.col - 1)),
                col: self.col - 1,
                ..self
            }
        } else if self.row > 0 {
            let prev = self.lines[self.row - 1];
            BufferView {
                lines: self.lines.update(self.row - 1, prev + self.current()).remove(self.row),
                row: self.row - 1,
                col: prev.len() as int,
                scroll: min_int(self.scroll, self.row - 1),
            }
        } else {
            self
        }
    }

    /// The buffer after the scroll offset is moved by the least amount that
    /// puts the cursor row among the `height` rows that start at the offset.
    /// A height of zero counts as one.
    pub open spec fn scrolled(self, height: int) -> BufferView {
        let h = if height < 1 {
            1
        } else {
            height
        };
        let scroll = if self.row < self.scroll {
            self.row
        } else if self.row - self.scroll >= h {
            self.row - h + 1
        } else {
            self.scroll
        };
        BufferView { scroll, ..self }
    }

    /// The lines shown in a window of `height` rows: those from the scroll
    /// offset on, `height` of them at most.
    pub open spec fn window(self, height: int) -> Seq<Seq<char>> {
        self.lines.subrange(
            self.scroll,
            min_int(self.scroll + height, self.lines.len() as int),
        )
    }
}

/// An editable text: lines, a cursor and a scroll offset.
pub struct LineBuffer {
    lines: Vec<Vec<char>>,
    row: usize,
    col: usize,
    scroll: usize,
}

impl View for LineBuffer {
    type V = BufferView;

    closed spec fn view(&self) -> BufferView {
        BufferView {
            lines: line_views(self.lines@),
            row: self.row as int,
            col: self.col as int,
            scroll: self.scroll as int,
        }
    }
}

impl LineBuffer {
    /// The invariant of the buffer, which every operation keeps.
    pub open spec fn wf(&self) -> bool {
        self@.wf()
    }

    /// A buffer of one empty line, with the cursor at its start.
    pub fn new() -> (b: LineBuffer)
        ensures
            b.wf(),
            b@ == BufferView::loaded(Seq::empty()),
    {
        let mut lines: Vec<Vec<char>> = Vec::new();
        lines.push(Vec::new());
        let b = LineBuffer { lines, row: 0, col: 0, scroll: 0 };
        assert(b@.lines == seq![Seq::<char>::empty()]);
        b
    }

    /// Replaces the content by the lines of `text` and puts the cursor and
    /// the scroll offset at the start.
    pub fn load(&mut self, text: &str)
        ensures
            final(self).wf(),
            final(self)@ == BufferView::loaded(text@),
    {
        self.lines = split_text(text);
        self.row = 0;
        self.col = 0;
        self.scroll = 0;
    }

    /// The text of the buffer: its lines joined by line feeds.
    pub fn serialize(&self) -> (text: String)
        ensures
            text@ == self@.text(),
    {
        join_text(&self.lines)
    }
    /// Moves the cursor one step in direction `d`.
    pub fn move_cursor(&mut self, d: Direction)
        requires
            old(self).wf(),
        ensures
            final(self).wf(),
            final(self)@ == old(self)@.moved(d),
    {
        match d {
            Direction::Left => {
                if self.col > 0 {
                    self.col -= 1;
                }
            },
            Direction::Right => {
                if self.col < self.lines[self.row].len() {
                    self.col += 1;
                }
            },
            Direction::Up => {
                if self.row > 0 {
                    self.row -= 1;
                    let len = self.lines[self.row].len();
                    if self.col > len {
                        self.col = len;
                    }
                    if self.scroll > self.row {
                        self.scroll = self.row;
                    }
                }
            },
            Direction::Down => {
                if self.row < self.lines.len() - 1 {
                    self.row += 1;
                    let len = self.lines[self.row].len();
                    if self.col > len {
                        self.col = len;
                    }
                }
            },
        }
    }

    /// Inserts `c` at the cursor and moves the cursor past it.
    pub fn insert_char(&mut self, c: char)
        requires
            old(self).wf(),
        ensures
            final(self).wf(),
            final(self)@ == old(self)@.inserted(c),
    {
        self.lines[self.row].insert(self.col, c);
        assert(self.col < self.lines[self.row as int].len());
        self.col += 1;
        assert(self@.lines =~= old(self)@.inserted(c).lines);
    }

    /// Splits the current line at the cursor; the cursor goes to the start
    /// of the new line below.
    pub fn split_line(&mut self)
        requires
            old(self).wf(),
        ensures
            final(self).wf(),
            final(self)@ == old(self)@.split_at_cursor(),
    {
        let tail = self.lines[self.row].split_off(self.col);
        assert(self.row < self.lines.len());
        self.lines.insert(self.row + 1, tail);
        self.row += 1;
        self.col = 0;
        assert(self@.lines =~= old(self)@.split_at_cursor().lines);
    }

    /// Deletes backward from the cursor.
    pub fn backspace(&mut self)
        requires
            old(self).wf(),
        ensures
            final(self).wf(),
            final(self)@ == old(self)@.backspaced(),
    {
        if self.col > 0 {
            self.lines[self.row].remove(self.col - 1);
            self.col -= 1;
            assert(self@.lines =~= old(self)@.backspaced().lines);
        } else if self.row > 0 {
            let mut line = self.lines.remove(self.row);
            self.row -= 1;
            self.col = self.lines[self.row].len();
            self.lines[self.row].append(&mut line);
            if self.scroll > self.row {
                self.scroll = self.row;
            }
            assert(self@.lines =~= old(self)@.backspaced().lines);
        }
    }

    /// Moves the scroll offset so that the cursor row is inside a window of
    /// `height` rows, by the least amount.
    pub fn scroll_to_cursor(&mut self, height: usize)
        requires
            old(self).wf(),
        ensures
            final(self).wf(),
            final(self)@ == old(self)@.scrolled(height as int),
            height >= 1 ==> final(self)@.scroll <= final(self)@.row < final(self)@.scroll + height,
    {
        let h = if height < 1 {
            1
        } else {
            height
        };
        if self.row - self.scroll >= h {
            self.scroll = self.row - h + 1;
        }
    }

    /// The lines inside a window of `height` rows.
    pub fn visible_window(&self, height: usize) -> (rows: Vec<String>)
        requires
            self.wf(),
        ensures
            text_views(rows@) == self@.window(height as int),
    {
        let mut rows: Vec<String> = Vec::new();
        let n = self.lines.len();
        let end = if height < n - self.scroll {
            self.scroll + height
        } else {
            n
        };
        let mut i = self.scroll;
        while i < end
            invariant
                self.scroll <= i <= end <= self.lines.len(),
                text_views(rows@) == self@.lines.subrange(self.scroll as int, i as int),
            decreases end - i,
        {
            let ghost before = text_views(rows@);
            let row = string_of(&self.lines[i]);
            rows.push(row);
            assert(text_views(rows@) =~= before.push(self@.lines[i as int]));
            i += 1;
        }
        rows
    }

    /// The cursor row.
    pub fn row(&self) -> (r: usize)
        ensures
            r == self@.row,
    {
        self.row
    }

    /// The cursor column.
    pub fn col(&self) -> (c: usize)
        ensures
            c == self@.col,
    {
        self.col
    }

    /// The scroll offset: the first row of the window.
    pub fn scroll(&self) -> (s: usize)
        ensures
            s == self@.scroll,
    {
        self.scroll
    }

    /// The number of lines.
    pub fn line_count(&self) -> (n: usize)
        ensures
            n == self@.lines.len(),
    {
        self.lines.len()
    }

    /// Line `i`, or `None` if there is no such line.
    pub fn line(&self, i: usize) -> (l: Option<String>)
        ensures
            i < self@.lines.len() ==> l.is_some() && l.unwrap()@ == self@.lines[i as int],
            i >= self@.lines.len() ==> l.is_none(),
    {
        if i < self.lines.len() {
            Some(string_of(&self.lines[i]))
        } else {
            None
        }
    }
    /// The cursor as the window shows it: its row counted from the first
    /// row of the window, and its column.
    pub fn cursor_in_window(&self) -> (at: (usize, usize))
        requires
            self.wf(),
        ensures
            at.0 == self@.row - self@.scroll,
            at.1 == self@.col,
    {
        (self.row - self.scroll, self.col)
    }
}

} // verus!
