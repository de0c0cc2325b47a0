//! The editor as a mathematical value: the document, the cursor, the
//! viewport and the status line, and what each move and each edit makes of
//! them. The contracts of the executable editor are stated over this value.

use vstd::prelude::*;
use crate::keys::{EscapeSeq, Key};
use crate::row::{has_tab_before, has_wide_tab_before, render_col};
use crate::text::split_lines;

verus! {

/// How often the quit key has to be pressed to leave unsaved changes behind.
pub const QUIT_TIMES: usize = 3;

/// How long a status message is shown, in milliseconds.
pub const MESSAGE_TTL: u64 = 5000;

/// What the next event is expected to be.
#[derive(PartialEq, Eq, Structural, Clone, Copy, Debug)]
pub enum Mode {
    /// Keys edit the document.
    Edit,
    /// Keys type the name of the file to save to.
    Prompt,
    /// The typed name was handed out to learn whether such a file exists.
    Probe,
    /// The next key confirms or cancels overwriting an existing file.
    Confirm,
    /// The document was handed out to be written.
    Write,
}

/// The state of an editor.
pub struct State {
    /// The height of the text area, in rows.
    pub rows: int,
    /// The width of the window, in columns.
    pub cols: int,
    /// The file row shown in the first row of the text area.
    pub row_offset: int,
    /// The render column shown in the first column of the window.
    pub col_offset: int,
    /// The cursor's column, in file coordinates.
    pub cx: int,
    /// The cursor's row, in file coordinates.
    pub cy: int,
    /// The lines of the document.
    pub lines: Seq<Seq<u8>>,
    /// The name of the file the document belongs to, if it has one.
    pub filename: Option<Seq<u8>>,
    /// The status message.
    pub status_msg: Seq<u8>,
    /// The time at which the status message was set.
    pub status_msg_time: int,
    /// Whether the document was changed since it was loaded or saved.
    pub dirty: bool,
    /// How many more presses of the quit key leave unsaved changes behind.
    pub quit_times: int,
    /// What the next event is expected to be.
    pub mode: Mode,
    /// The file name typed so far.
    pub path: Seq<u8>,
}

impl State {
    /// The state of an editor that was just made for a terminal of `cols`
    /// columns and `rows` rows: an empty document without a name, the cursor
    /// at its start, and the two lowest rows kept for the status bar and the
    /// message bar.
    pub open spec fn initial(cols: int, rows: int) -> State {
        State {
            rows: rows - 2,
            cols,
            row_offset: 0,
            col_offset: 0,
            cx: 0,
            cy: 0,
            lines: Seq::empty(),
            filename: None,
            status_msg: Seq::empty(),
            status_msg_time: 0,
            dirty: false,
            quit_times: QUIT_TIMES as int,
            mode: Mode::Edit,
            path: Seq::empty(),
        }
    }

    /// The length of the line at `row`, or 0 where there is no such line.
    pub open spec fn line_len(self, row: int) -> int {
        if 0 <= row < self.lines.len() {
            self.lines[row].len() as int
        } else {
            0
        }
    }

    /// Everything that holds of a state but the bound on the cursor's
    /// column: the window is not empty, the cursor's row is a line of the
    /// document or the row just after the last one, and the counters are in
    /// range.
    pub open spec fn loosely_valid(self) -> bool {
        &&& 1 <= self.rows
        &&& 1 <= self.cols
        &&& 0 <= self.row_offset
        &&& 0 <= self.col_offset
        &&& 0 <= self.cx
        &&& 0 <= self.cy <= self.lines.len()
        &&& 0 <= self.status_msg_time
        &&& 1 <= self.quit_times <= QUIT_TIMES
    }

    /// What holds of every state: it is loosely valid, and the cursor's
    /// column is not past the end of its line, and is 0 on the row after the
    /// last line.
    pub open spec fn valid(self) -> bool {
        &&& self.loosely_valid()
        &&& self.cx <= self.line_len(self.cy)
    }

    /// The cursor's column in render coordinates.
    pub open spec fn rx(self) -> int {
        if 0 <= self.cy < self.lines.len() {
            render_col(self.lines[self.cy], self.cx) as int
        } else {
            0
        }
    }

    /// The line the cursor is on; on the row after the last line, an empty
    /// line.
    pub open spec fn current_line(self) -> Seq<u8> {
        if 0 <= self.cy < self.lines.len() {
            self.lines[self.cy]
        } else {
            Seq::empty()
        }
    }

    /// Whether the cursor is inside the window.
    pub open spec fn in_view(self) -> bool {
        &&& self.row_offset <= self.cy < self.row_offset + self.rows
        &&& self.col_offset <= self.rx() < self.col_offset + self.cols
    }

    /// The state with the cursor's column pulled back to the end of its line.
    pub open spec fn clamp(self) -> State {
        State {
            cx: if self.cx > self.line_len(self.cy) {
                self.line_len(self.cy)
            } else {
                self.cx
            },
            ..self
        }
    }

    /// One row up, unless the cursor is on the first row.
    pub open spec fn up(self) -> State {
        State { cy: if self.cy > 0 {
            self.cy - 1
        } else {
            self.cy
        }, ..self }.clamp()
    }

    /// One row down, unless the cursor is on the row after the last line.
    pub open spec fn down(self) -> State {
        State {
            cy: if self.cy < self.lines.len() {
                self.cy + 1
            } else {
                self.cy
            },
            ..self
        }.clamp()
    }

    /// One column left; from the start of a line to the end of the line
    /// before it, if there is one.
    pub open spec fn left(self) -> State {
        if self.cx > 0 {
            State { cx: self.cx - 1, ..self }.clamp()
        } else if self.cy > 0 {
            State { cy: self.cy - 1, cx: self.line_len(self.cy - 1), ..self }.clamp()
        } else {
            self.clamp()
        }
    }

    /// One column right; from the end of a line to the start of the row
    /// below it, be that the next line or the row after the last line. On
    /// the row after the last line there is nothing to move along.
    pub open spec fn right(self) -> State {
        if self.cy < self.lines.len() && self.cx + 1 > self.line_len(self.cy) {
            State { cy: self.cy + 1, cx: 0, ..self }.clamp()
        } else {
            State { cx: self.cx + 1, ..self }.clamp()
        }
    }

    /// The state after an arrow key; any other key moves nothing.
    pub open spec fn move_cursor(self, key: Key) -> State {
        match key {
            Key::Special(EscapeSeq::UpArrow) => self.up(),
            Key::Special(EscapeSeq::DownArrow) => self.down(),
            Key::Special(EscapeSeq::LeftArrow) => self.left(),
            Key::Special(EscapeSeq::RightArrow) => self.right(),
            _ => self,
        }
    }

    /// The state after the keys of `keys`, one after the other.
    pub open spec fn moves(self, keys: Seq<Key>) -> State
        decreases keys.len(),
    {
        if keys.len() == 0 {
            self
        } else {
            self.moves(keys.drop_last()).move_cursor(keys.last())
        }
    }

    /// The state after `n` presses of `key`.
    pub open spec fn repeat(self, key: Key, n: nat) -> State
        decreases n,
    {
        if n == 0 {
            self
        } else {
            self.repeat(key, (n - 1) as nat).move_cursor(key)
        }
    }

    /// To the start of the line.
    pub open spec fn home(self) -> State {
        State { cx: 0, ..self }
    }

    /// To the last character of the line, if the cursor is on a line.
    pub open spec fn end(self) -> State {
        if self.cy < self.lines.len() {
            State { cx: if self.line_len(self.cy) > 0 {
                self.line_len(self.cy) - 1
            } else {
                0
            }, ..self }
        } else {
            self
        }
    }

    /// To the top row of the window, and from there a window's height of
    /// rows up, one at a time.
    pub open spec fn page_up(self) -> State {
        State {
            cy: if self.row_offset > self.lines.len() {
                self.lines.len() as int
            } else {
                self.row_offset
            },
            ..self
        }.repeat(Key::Special(EscapeSeq::UpArrow), self.rows as nat)
    }

    /// To the bottom row of the window, but not past the row after the last
    /// line, and from there a window's height of rows down, one at a time.
    pub open spec fn page_down(self) -> State {
        State {
            cy: if self.row_offset + self.rows - 1 > self.lines.len() {
                self.lines.len() as int
            } else {
                self.row_offset + self.rows - 1
            },
            ..self
        }.repeat(Key::Special(EscapeSeq::DownArrow), self.rows as nat)
    }

    /// The window pulled over the cursor: up or left to the cursor where the
    /// cursor is before the window, down or right until the cursor is on the
    /// last row or column where it is behind the window.
    pub open spec fn scroll(self) -> State {
        State {
            row_offset: if self.cy < self.row_offset {
                self.cy
            } else if self.cy >= self.row_offset + self.rows {
                self.cy - self.rows + 1
            } else {
                self.row_offset
            },
            col_offset: if self.rx() < self.col_offset {
                self.rx()
            } else if self.rx() >= self.col_offset + self.cols {
                self.rx() - self.cols + 1
            } else {
                self.col_offset
            },
            ..self
        }
    }

    /// An empty line put in at the cursor's row.
    pub open spec fn insert_row(self) -> State {
        State { lines: self.lines.insert(self.cy, Seq::empty()), dirty: true, ..self }
    }

    /// The character `c` put in at the cursor, which moves behind it. On the
    /// row after the last line this starts a new line.
    pub open spec fn insert_char(self, c: u8) -> State {
        let s = if self.cy >= self.lines.len() {
            self.insert_row()
        } else {
            self
        };
        State {
            lines: s.lines.update(s.cy, s.lines[s.cy].insert(s.cx, c)),
            cx: s.cx + 1,
            dirty: true,
            ..s
        }
    }

    /// The line broken at the cursor: what stands before the cursor stays,
    /// what stands from the cursor on becomes the next line, and the cursor
    /// goes to its start.
    pub open spec fn insert_newline(self) -> State {
        if self.cx == 0 {
            State { cy: self.cy + 1, ..self.insert_row() }
        } else {
            let line = self.lines[self.cy];
            State {
                lines: self.lines.update(self.cy, line.take(self.cx)).insert(
                    self.cy + 1,
                    line.skip(self.cx),
                ),
                cy: self.cy + 1,
                cx: 0,
                dirty: true,
                ..self
            }
        }
    }

    /// The character before the cursor taken out; at the start of a line,
    /// the line joined to the end of the line before it, where the cursor
    /// then stands. Nothing happens at the start of the document and on the
    /// row after the last line.
    pub open spec fn backspace_char(self) -> State {
        if self.cy >= self.lines.len() || (self.cx == 0 && self.cy == 0) {
            self
        } else if self.cx > 0 {
            State {
                lines: self.lines.update(self.cy, self.lines[self.cy].remove(self.cx - 1)),
                cx: self.cx - 1,
                dirty: true,
                ..self
            }
        } else {
            let before = self.lines[self.cy - 1];
            State {
                lines: self.lines.update(self.cy - 1, before + self.lines[self.cy]).remove(
                    self.cy,
                ),
                cx: before.len() as int,
                cy: self.cy - 1,
                dirty: true,
                ..self
            }
        }
    }

    /// The forward delete: one step right, then a backspace.
    pub open spec fn delete_char(self) -> State {
        self.right().backspace_char()
    }

    /// The document replaced by the lines of a file, shown from its start
    /// and not dirty.
    pub open spec fn open(self, filename: Seq<u8>, content: Seq<u8>) -> State {
        State {
            lines: split_lines(content),
            filename: Some(filename),
            dirty: false,
            cx: 0,
            cy: 0,
            row_offset: 0,
            col_offset: 0,
            ..self
        }
    }

    /// The status message replaced by `msg`, set at the time `now`.
    pub open spec fn set_status_message(self, msg: Seq<u8>, now: int) -> State {
        State { status_msg: msg, status_msg_time: now, ..self }
    }
}

/// Whether `key` is the left or the right arrow.
pub open spec fn is_horizontal(key: Key) -> bool {
    key == Key::Special(EscapeSeq::LeftArrow) || key == Key::Special(EscapeSeq::RightArrow)
}

/// Whether `key` is one of the four arrows.
pub open spec fn is_arrow(key: Key) -> bool {
    is_horizontal(key) || key == Key::Special(EscapeSeq::UpArrow) || key == Key::Special(
        EscapeSeq::DownArrow,
    )
}

/// An arrow key takes a loosely valid state to a valid one, and moves
/// nothing but the cursor.
pub proof fn lemma_move_keeps_valid(s: State, key: Key)
    requires
        s.loosely_valid(),
        is_arrow(key),
    ensures
        s.move_cursor(key).valid(),
        s.move_cursor(key) == (State { cx: s.move_cursor(key).cx, cy: s.move_cursor(key).cy, ..s }),
{
}

/// After every sequence of left and right moves from a valid state the
/// cursor's column is at most the length of its line, and 0 on the row after
/// the last line.
pub proof fn moves_keep_cursor_on_line(s: State, keys: Seq<Key>)
    requires
        s.valid(),
        forall|i: int| 0 <= i < keys.len() ==> is_horizontal(#[trigger] keys[i]),
    ensures
        s.moves(keys).valid(),
        0 <= s.moves(keys).cx <= s.moves(keys).line_len(s.moves(keys).cy),
        s.moves(keys).lines == s.lines,
    decreases keys.len(),
{
    if keys.len() > 0 {
        let front = keys.drop_last();
        assert forall|i: int| 0 <= i < front.len() implies is_horizontal(#[trigger] front[i]) by {
            assert(front[i] == keys[i]);
        }
        moves_keep_cursor_on_line(s, front);
        lemma_move_keeps_valid(s.moves(front), keys.last());
    }
}

/// From every valid position a move left followed by a move right leads
/// back to where it began, the very end of the document included. Only at
/// the very start of a document that is not empty it does not: there the
/// move left does nothing and the move right moves.
pub proof fn left_then_right_returns(s: State)
    requires
        s.valid(),
        s.cx > 0 || s.cy > 0 || s.lines.len() == 0,
    ensures
        s.left().right() == s,
{
}

/// At the very start of the document a move left changes nothing, and at the
/// very end a move right changes nothing, however often it is made.
pub proof fn moves_at_the_boundaries_do_nothing(s: State)
    requires
        s.valid(),
    ensures
        s.cx == 0 && s.cy == 0 ==> s.left() == s && s.left().left() == s,
        s.cy == s.lines.len() ==> s.right() == s && s.right().right() == s,
{
}

/// A newline put in at the start of a line, and then a backspace from the
/// start of the line that follows, give back the lines and the cursor as they
/// were.
pub proof fn newline_then_backspace_restores(s: State)
    requires
        s.valid(),
        s.cx == 0,
        s.cy < s.lines.len(),
    ensures
        s.insert_newline().backspace_char().lines == s.lines,
        s.insert_newline().backspace_char().cx == s.cx,
        s.insert_newline().backspace_char().cy == s.cy,
{
    let broken = s.insert_newline();
    let joined = broken.backspace_char();
    assert(broken.lines[s.cy] =~= Seq::<u8>::empty());
    assert(broken.lines[s.cy + 1] == s.lines[s.cy]);
    assert(broken.lines[s.cy] + broken.lines[s.cy + 1] =~= s.lines[s.cy]);
    assert(joined.lines =~= s.lines);
}

/// A run of presses of one arrow key takes a loosely valid state to a
/// loosely valid one, and if it is not empty to a valid one; the document
/// stays as it is.
pub proof fn lemma_repeat_keeps_valid(s: State, key: Key, n: nat)
    requires
        s.loosely_valid(),
        is_arrow(key),
    ensures
        s.repeat(key, n).loosely_valid(),
        n > 0 ==> s.repeat(key, n).valid(),
        s.repeat(key, n) == (State { cx: s.repeat(key, n).cx, cy: s.repeat(key, n).cy, ..s }),
    decreases n,
{
    if n > 0 {
        lemma_repeat_keeps_valid(s, key, (n - 1) as nat);
        lemma_move_keeps_valid(s.repeat(key, (n - 1) as nat), key);
    }
}

/// Whether two states differ at most in the document and the cursor: the
/// window, the file name, the status line and the session are the same.
pub open spec fn same_but_document(a: State, b: State) -> bool {
    a == (State { lines: a.lines, cx: a.cx, cy: a.cy, dirty: a.dirty, ..b })
}

/// Every edit takes a valid state to a valid one, touches nothing but the
/// document and the cursor, and leaves the document dirty if it changes the
/// lines.
pub proof fn lemma_edits_keep_valid(s: State, c: u8)
    requires
        s.valid(),
    ensures
        s.insert_char(c).valid() && same_but_document(s.insert_char(c), s),
        s.insert_char(c).dirty,
        s.insert_newline().valid() && same_but_document(s.insert_newline(), s),
        s.insert_newline().dirty,
        s.backspace_char().valid() && same_but_document(s.backspace_char(), s),
        s.backspace_char().lines != s.lines ==> s.backspace_char().dirty,
        s.delete_char().valid() && same_but_document(s.delete_char(), s),
        s.delete_char().lines != s.lines ==> s.delete_char().dirty,
{
    lemma_move_keeps_valid(s, Key::Special(EscapeSeq::RightArrow));
    let moved = s.right();
    assert(moved.backspace_char().valid());
    assert(same_but_document(moved.backspace_char(), moved));
}

/// Home, end and the page keys take a valid state to a valid one and move
/// nothing but the cursor.
pub proof fn lemma_jumps_keep_valid(s: State)
    requires
        s.valid(),
    ensures
        s.home().valid() && s.home() == (State { cx: s.home().cx, ..s }),
        s.end().valid() && s.end() == (State { cx: s.end().cx, ..s }),
        s.page_up().valid() && s.page_up() == (State {
            cx: s.page_up().cx,
            cy: s.page_up().cy,
            ..s
        }),
        s.page_down().valid() && s.page_down() == (State {
            cx: s.page_down().cx,
            cy: s.page_down().cy,
            ..s
        }),
{
    let top = State {
        cy: if s.row_offset > s.lines.len() {
            s.lines.len() as int
        } else {
            s.row_offset
        },
        ..s
    };
    let bottom = State {
        cy: if s.row_offset + s.rows - 1 > s.lines.len() {
            s.lines.len() as int
        } else {
            s.row_offset + s.rows - 1
        },
        ..s
    };
    lemma_repeat_keeps_valid(top, Key::Special(EscapeSeq::UpArrow), s.rows as nat);
    lemma_repeat_keeps_valid(bottom, Key::Special(EscapeSeq::DownArrow), s.rows as nat);
}

/// In every valid state the cursor's render column is at least its file
/// column.
pub proof fn rx_at_least_cx(s: State)
    requires
        s.valid(),
    ensures
        s.rx() >= s.cx,
{
    if s.cy < s.lines.len() {
        crate::row::render_col_at_least_cx(s.lines[s.cy], s.cx);
    }
}

/// In every valid state the cursor's render column equals its file column if
/// and only if no tab stands before the cursor on its line. This leaves out
/// the states in which every tab before the cursor is one column wide: there
/// the two are equal although a tab stands before the cursor.
pub proof fn rx_equals_cx_iff_no_tab(s: State)
    requires
        s.valid(),
        has_tab_before(s.current_line(), s.cx) ==> has_wide_tab_before(s.current_line(), s.cx),
    ensures
        s.rx() == s.cx <==> !has_tab_before(s.current_line(), s.cx),
{
    if s.cy < s.lines.len() {
        crate::row::render_col_equals_cx_iff_no_tab(s.lines[s.cy], s.cx);
    }
}

/// Scrolling puts the cursor inside the window, whatever the window showed
/// before; it changes nothing where the cursor is inside already, and so
/// nothing when it is done again.
pub proof fn scroll_brings_cursor_into_view(s: State)
    requires
        s.valid(),
    ensures
        s.scroll().valid(),
        s.scroll().in_view(),
        s.in_view() ==> s.scroll() == s,
        s.scroll().scroll() == s.scroll(),
{
    rx_at_least_cx(s);
}

} // verus!
