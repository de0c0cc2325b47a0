//! The editor itself: the document buffer with its render lines, the cursor
//! and the viewport, and the operations that keys are turned into.

use vstd::prelude::*;
use vstd::string::StringSliceAdditionalSpecFns;
use crate::command::{
    decimal, move_cursor, push_bytes, push_decimal, push_text, CLEAR_REST_OF_LINE, CLEAR_SCREEN,
    HIDE_CURSOR, LINE_BREAK, MOVE_CURSOR_TOP_LEFT, SHOW_CURSOR,
};
use crate::keys::{EscapeSeq, Key, BACKSPACE, ENTER};
use crate::screen::{
    push_banner, push_status_line, push_visible, MODIFIED, NO_NAME, TILDE,
};
use crate::row::{cx_to_rx, expand_tabs, lemma_expand_prefix, render_row};
use crate::session::{
    ctrl, is_control, quit_warning, written_message, Action, ActionView, BYTES_WRITTEN,
    FILENAME_PROMPT, HELP, OVERWRITE, OVERWRITE_WARNING, QUIT_WARNING, QUIT_WARNING_MORE,
    QUIT_WARNING_ONCE, SAVE_ABORTED, SAVE_FAILED,
};
use crate::state::{is_arrow, Mode, State, MESSAGE_TTL, QUIT_TIMES};
use crate::text::{join, lines_view, split};

verus! {

/// An editor: one document, its cursor and viewport, its status line and
/// where its session stands.
pub struct Editor {
    rows: u16,
    cols: u16,
    row_offset: usize,
    col_offset: usize,
    cx: usize,
    cy: usize,
    lines: Vec<Vec<u8>>,
    render: Vec<Vec<u8>>,
    filename: Option<Vec<u8>>,
    status_msg: Vec<u8>,
    status_msg_time: u64,
    dirty: bool,
    quit_times: usize,
    mode: Mode,
    path: Vec<u8>,
}

impl View for Editor {
    type V = State;

    closed spec fn view(&self) -> State {
        State {
            rows: self.rows as int,
            cols: self.cols as int,
            row_offset: self.row_offset as int,
            col_offset: self.col_offset as int,
            cx: self.cx as int,
            cy: self.cy as int,
            lines: lines_view(self.lines@),
            filename: match self.filename {
                Some(name) => Some(name@),
                None => None,
            },
            status_msg: self.status_msg@,
            status_msg_time: self.status_msg_time as int,
            dirty: self.dirty,
            quit_times: self.quit_times as int,
            mode: self.mode,
            path: self.path@,
        }
    }
}

impl Editor {
    /// Whether the render lines are the tab expansions of the lines, one for
    /// each line and in the same order.
    pub closed spec fn rendered(&self) -> bool {
        &&& self.render@.len() == self.lines@.len()
        &&& forall|i: int|
            0 <= i < self.lines@.len() ==> (#[trigger] self.render@[i])@ == expand_tabs(
                self.lines@[i]@,
            )
    }

    /// Whether the editor is in order but for the bound on the cursor's
    /// column, as it is in the middle of a page move.
    pub open spec fn loosely_wf(&self) -> bool {
        self@.loosely_valid() && self.rendered()
    }

    /// Whether the editor is in order: its state is valid and its render
    /// lines are up to date.
    pub open spec fn wf(&self) -> bool {
        self@.valid() && self.rendered()
    }

    /// An editor for a terminal of `cols` columns and `rows` rows, with an
    /// empty document.
    pub fn new(cols: u16, rows: u16) -> (editor: Editor)
        requires
            cols >= 1,
            rows >= 3,
        ensures
            editor.wf(),
            editor@ == State::initial(cols as int, rows as int),
    {
        let editor = Editor {
            rows: rows - 2,
            cols,
            row_offset: 0,
            col_offset: 0,
            cx: 0,
            cy: 0,
            lines: Vec::new(),
            render: Vec::new(),
            filename: None,
            status_msg: Vec::new(),
            status_msg_time: 0,
            dirty: false,
            quit_times: QUIT_TIMES,
            mode: Mode::Edit,
            path: Vec::new(),
        };
        assert(editor@.lines =~= Seq::empty());
        editor
    }

    /// The cursor's column in the file.
    pub fn cx(&self) -> (cx: usize)
        ensures
            cx == self@.cx,
    {
        self.cx
    }

    /// The cursor's row in the file.
    pub fn cy(&self) -> (cy: usize)
        ensures
            cy == self@.cy,
    {
        self.cy
    }

    /// The height of the text area.
    pub fn rows(&self) -> (rows: u16)
        ensures
            rows == self@.rows,
    {
        self.rows
    }

    /// The width of the window.
    pub fn cols(&self) -> (cols: u16)
        ensures
            cols == self@.cols,
    {
        self.cols
    }

    /// The file row at the top of the window.
    pub fn row_offset(&self) -> (offset: usize)
        ensures
            offset == self@.row_offset,
    {
        self.row_offset
    }

    /// The render column at the left edge of the window.
    pub fn col_offset(&self) -> (offset: usize)
        ensures
            offset == self@.col_offset,
    {
        self.col_offset
    }

    /// Whether the document has unsaved changes.
    pub fn dirty(&self) -> (dirty: bool)
        ensures
            dirty == self@.dirty,
    {
        self.dirty
    }

    /// How many more presses of the quit key leave unsaved changes behind.
    pub fn quit_times(&self) -> (left: usize)
        ensures
            left == self@.quit_times,
    {
        self.quit_times
    }

    /// What the next event is expected to be.
    pub fn mode(&self) -> (mode: Mode)
        ensures
            mode == self@.mode,
    {
        self.mode
    }

    /// The number of lines in the document.
    pub fn line_count(&self) -> (count: usize)
        ensures
            count == self@.lines.len(),
    {
        self.lines.len()
    }

    /// The line at `row`, if the document has one there.
    pub fn line(&self, row: usize) -> (line: Option<&Vec<u8>>)
        ensures
            row < self@.lines.len() ==> line is Some && line->0@ == self@.lines[row as int],
            row >= self@.lines.len() ==> line is None,
    {
        if row < self.lines.len() {
            Some(&self.lines[row])
        } else {
            None
        }
    }

    /// The render line at `row`, if the document has a line there.
    pub fn render_line(&self, row: usize) -> (line: Option<&Vec<u8>>)
        requires
            self.wf(),
        ensures
            row < self@.lines.len() ==> line is Some && line->0@ == expand_tabs(
                self@.lines[row as int],
            ),
            row >= self@.lines.len() ==> line is None,
    {
        if row < self.render.len() {
            Some(&self.render[row])
        } else {
            None
        }
    }

    /// The name of the document's file, if it has one.
    pub fn filename(&self) -> (name: Option<&Vec<u8>>)
        ensures
            match name {
                Some(name) => self@.filename == Some(name@),
                None => self@.filename is None,
            },
    {
        self.filename.as_ref()
    }

    /// The status message.
    pub fn status_message(&self) -> (msg: &Vec<u8>)
        ensures
            msg@ == self@.status_msg,
    {
        &self.status_msg
    }

    /// The file name typed so far.
    pub fn path(&self) -> (path: &Vec<u8>)
        ensures
            path@ == self@.path,
    {
        &self.path
    }

    /// The bytes that leave a clean screen behind when a session ends: the
    /// screen cleared and the write-head sent home.
    pub fn clear_screen() -> (out: Vec<u8>)
        ensures
            out@ == CLEAR_SCREEN.spec_bytes() + MOVE_CURSOR_TOP_LEFT.spec_bytes(),
    {
        let mut out: Vec<u8> = Vec::new();
        push_text(&mut out, CLEAR_SCREEN);
        push_text(&mut out, MOVE_CURSOR_TOP_LEFT);
        assert(out@ =~= CLEAR_SCREEN.spec_bytes() + MOVE_CURSOR_TOP_LEFT.spec_bytes());
        out
    }

    /// The cursor's column in render coordinates, worked out from its
    /// column in the file.
    pub fn convert_cx_to_rx(&self) -> (rx: usize)
        requires
            self.wf(),
        ensures
            rx == self@.rx(),
            rx >= self@.cx,
    {
        if self.cy < self.lines.len() {
            proof {
                lemma_expand_prefix(self.lines@[self.cy as int]@, self.cx as int);
                assert(self.render@[self.cy as int]@.len() == self.render@[self.cy as int].len());
                crate::row::render_col_at_least_cx(self.lines@[self.cy as int]@, self.cx as int);
            }
            cx_to_rx(&self.lines[self.cy], self.cx)
        } else {
            0
        }
    }

    /// Pulls the cursor's column back to the end of its line.
    fn snap(&mut self)
        requires
            old(self).loosely_wf(),
        ensures
            final(self).wf(),
            final(self)@ == old(self)@.clamp(),
    {
        if self.cy < self.lines.len() {
            let len = self.lines[self.cy].len();
            if self.cx > len {
                self.cx = len;
            }
        } else {
            self.cx = 0;
        }
    }

    /// Moves the cursor one row up or down.
    fn move_vertical(&mut self, down: bool)
        requires
            old(self).loosely_wf(),
        ensures
            final(self).wf(),
            final(self)@ == if down {
                old(self)@.down()
            } else {
                old(self)@.up()
            },
    {
        if down {
            if self.cy < self.lines.len() {
                self.cy += 1;
            }
        } else {
            if self.cy > 0 {
                self.cy -= 1;
            }
        }
        self.snap();
    }

    /// Moves the cursor one step in the direction of an arrow key.
    pub fn move_cursor(&mut self, key: Key)
        requires
            old(self).wf(),
            is_arrow(key),
        ensures
            final(self).wf(),
            final(self)@ == old(self)@.move_cursor(key),
    {
        match key {
            Key::Special(EscapeSeq::UpArrow) => {
                self.move_vertical(false);
            },
            Key::Special(EscapeSeq::DownArrow) => {
                self.move_vertical(true);
            },
            Key::Special(EscapeSeq::RightArrow) => {
                if self.cy < self.lines.len() {
                    if self.cx < self.lines[self.cy].len() {
                        self.cx += 1;
                    } else {
                        self.cy += 1;
                        self.cx = 0;
                    }
                }
                self.snap();
            },
            Key::Special(EscapeSeq::LeftArrow) => {
                if self.cx > 0 {
                    self.cx -= 1;
                } else if self.cy > 0 {
                    self.cy -= 1;
                    self.cx = self.lines[self.cy].len();
                }
                self.snap();
            },
            _ => {},
        }
    }

    /// Puts an empty line in at the cursor's row.
    fn insert_row(&mut self)
        requires
            old(self).wf(),
            old(self)@.cx == 0,
        ensures
            final(self).wf(),
            final(self)@ == old(self)@.insert_row(),
    {
        self.render.insert(self.cy, Vec::new());
        self.lines.insert(self.cy, Vec::new());
        self.dirty = true;
        proof {
            assert(self@.lines =~= old(self)@.lines.insert(old(self)@.cy, Seq::empty()));
            assert forall|i: int| 0 <= i < self.lines@.len() implies (#[trigger] self.render@[i])@
                == expand_tabs(self.lines@[i]@) by {
                if i < self.cy {
                    assert(self.render@[i] == old(self).render@[i]);
                } else if i > self.cy {
                    assert(self.render@[i] == old(self).render@[i - 1]);
                }
            }
        }
    }

    /// Puts the character `c` in at the cursor and moves the cursor behind
    /// it. On the row after the last line this starts a new line.
    pub fn insert_char(&mut self, c: u8)
        requires
            old(self).wf(),
        ensures
            final(self).wf(),
            final(self)@ == old(self)@.insert_char(c),
    {
        if self.cy >= self.lines.len() {
            self.insert_row();
        }
        let ghost before = *self;
        self.lines[self.cy].insert(self.cx, c);
        let fresh = render_row(&self.lines[self.cy]);
        self.render[self.cy] = fresh;
        assert(self.lines@[self.cy as int]@.len() == self.lines@[self.cy as int].len());
        self.cx += 1;
        self.dirty = true;
        proof {
            assert(self@.lines =~= before@.lines.update(
                before@.cy,
                before@.lines[before@.cy].insert(before@.cx, c),
            ));
            assert forall|i: int| 0 <= i < self.lines@.len() implies (#[trigger] self.render@[i])@
                == expand_tabs(self.lines@[i]@) by {
                if i != self.cy {
                    assert(self.render@[i] == before.render@[i]);
                }
            }
        }
    }

    /// Breaks the line at the cursor and moves the cursor to the start of
    /// the new line.
    pub fn insert_newline(&mut self)
        requires
            old(self).wf(),
        ensures
            final(self).wf(),
            final(self)@ == old(self)@.insert_newline(),
    {
        if self.cx == 0 {
            self.insert_row();
        } else {
            assert(self.cy < self.lines.len());
            let tail = self.lines[self.cy].split_off(self.cx);
            let fresh_head = render_row(&self.lines[self.cy]);
            let fresh_tail = render_row(&tail);
            self.render[self.cy] = fresh_head;
            self.lines.insert(self.cy + 1, tail);
            self.render.insert(self.cy + 1, fresh_tail);
            self.dirty = true;
            proof {
                let line = old(self)@.lines[old(self)@.cy];
                assert(self@.lines =~= old(self)@.lines.update(
                    old(self)@.cy,
                    line.take(old(self)@.cx),
                ).insert(old(self)@.cy + 1, line.skip(old(self)@.cx)));
                assert forall|i: int|
                    0 <= i < self.lines@.len() implies (#[trigger] self.render@[i])@
                    == expand_tabs(self.lines@[i]@) by {
                    if i < self.cy {
                        assert(self.render@[i] == old(self).render@[i]);
                    } else if i > self.cy + 1 {
                        assert(self.render@[i] == old(self).render@[i - 1]);
                    }
                }
            }
        }
        assert(self.cy < self.lines.len());
        self.cy += 1;
        self.cx = 0;
    }

    /// Takes out the character before the cursor, or at the start of a line
    /// joins the line to the one before it.
    pub fn backspace_char(&mut self)
        requires
            old(self).wf(),
        ensures
            final(self).wf(),
            final(self)@ == old(self)@.backspace_char(),
    {
        if self.cy < self.lines.len() && !(self.cx == 0 && self.cy == 0) {
            if self.cx > 0 {
                self.lines[self.cy].remove(self.cx - 1);
                let fresh = render_row(&self.lines[self.cy]);
                self.render[self.cy] = fresh;
                self.cx -= 1;
                proof {
                    assert(self@.lines =~= old(self)@.lines.update(
                        old(self)@.cy,
                        old(self)@.lines[old(self)@.cy].remove(old(self)@.cx - 1),
                    ));
                    assert forall|i: int|
                        0 <= i < self.lines@.len() implies (#[trigger] self.render@[i])@
                        == expand_tabs(self.lines@[i]@) by {
                        if i != self.cy {
                            assert(self.render@[i] == old(self).render@[i]);
                        }
                    }
                }
            } else {
                let mut line = self.lines.remove(self.cy);
                self.render.remove(self.cy);
                self.cy -= 1;
                self.cx = self.lines[self.cy].len();
                self.lines[self.cy].append(&mut line);
                let fresh = render_row(&self.lines[self.cy]);
                self.render[self.cy] = fresh;
                proof {
                    let before = old(self)@.lines[old(self)@.cy - 1];
                    assert(self@.lines =~= old(self)@.lines.update(
                        old(self)@.cy - 1,
                        before + old(self)@.lines[old(self)@.cy],
                    ).remove(old(self)@.cy));
                    assert forall|i: int|
                        0 <= i < self.lines@.len() implies (#[trigger] self.render@[i])@
                        == expand_tabs(self.lines@[i]@) by {
                        if i < self.cy {
                            assert(self.render@[i] == old(self).render@[i]);
                        } else if i > self.cy {
                            assert(self.render@[i] == old(self).render@[i + 1]);
                        }
                    }
                }
            }
            self.dirty = true;
        }
    }

    /// Deletes forward: moves one step right, then takes out the character
    /// before the cursor.
    pub fn delete_char(&mut self)
        requires
            old(self).wf(),
        ensures
            final(self).wf(),
            final(self)@ == old(self)@.delete_char(),
    {
        self.move_cursor(Key::Special(EscapeSeq::RightArrow));
        self.backspace_char();
    }

    /// Moves the cursor to the start of its line.
    pub fn home(&mut self)
        requires
            old(self).wf(),
        ensures
            final(self).wf(),
            final(self)@ == old(self)@.home(),
    {
        self.cx = 0;
    }

    /// Moves the cursor to the last character of its line.
    pub fn end(&mut self)
        requires
            old(self).wf(),
        ensures
            final(self).wf(),
            final(self)@ == old(self)@.end(),
    {
        if self.cy < self.lines.len() {
            let len = self.lines[self.cy].len();
            self.cx = if len > 0 {
                len - 1
            } else {
                0
            };
        }
    }

    /// Presses the up or the down arrow once for each row of the text area.
    fn move_page(&mut self, down: bool)
        requires
            old(self).loosely_wf(),
        ensures
            final(self).wf(),
            final(self)@ == old(self)@.repeat(
                if down {
                    Key::Special(EscapeSeq::DownArrow)
                } else {
                    Key::Special(EscapeSeq::UpArrow)
                },
                old(self)@.rows as nat,
            ),
    {
        let ghost key = if down {
            Key::Special(EscapeSeq::DownArrow)
        } else {
            Key::Special(EscapeSeq::UpArrow)
        };
        let rows = self.rows;
        let mut i: u16 = 0;
        while i < rows
            invariant
                i <= rows,
                rows == old(self).rows,
                rows >= 1,
                self.loosely_wf(),
                i > 0 ==> self.wf(),
                self@ == old(self)@.repeat(key, i as nat),
                key == if down {
                    Key::Special(EscapeSeq::DownArrow)
                } else {
                    Key::Special(EscapeSeq::UpArrow)
                },
            decreases rows - i,
        {
            self.move_vertical(down);
            i += 1;
        }
    }

    /// Moves the cursor to the top of the window and a page up from there.
    pub fn page_up(&mut self)
        requires
            old(self).wf(),
        ensures
            final(self).wf(),
            final(self)@ == old(self)@.page_up(),
    {
        let len = self.lines.len();
        self.cy = if self.row_offset > len {
            len
        } else {
            self.row_offset
        };
        self.move_page(false);
    }

    /// Moves the cursor to the bottom of the window and a page down from
    /// there.
    pub fn page_down(&mut self)
        requires
            old(self).wf(),
        ensures
            final(self).wf(),
            final(self)@ == old(self)@.page_down(),
    {
        let len = self.lines.len();
        let page = (self.rows - 1) as usize;
        self.cy = if self.row_offset > len || page > len - self.row_offset {
            len
        } else {
            self.row_offset + page
        };
        self.move_page(true);
    }

    /// Replaces the document by the lines of a file with the given name and
    /// content, and shows it from its start.
    pub fn open(&mut self, filename: Vec<u8>, content: &[u8])
        requires
            old(self).wf(),
        ensures
            final(self).wf(),
            final(self)@ == old(self)@.open(filename@, content@),
    {
        let lines = split(content);
        let mut render: Vec<Vec<u8>> = Vec::new();
        let mut i: usize = 0;
        while i < lines.len()
            invariant
                i <= lines.len(),
                render@.len() == i,
                forall|k: int| 0 <= k < i ==> (#[trigger] render@[k])@ == expand_tabs(lines@[k]@),
            decreases lines.len() - i,
        {
            render.push(render_row(&lines[i]));
            i += 1;
        }
        self.lines = lines;
        self.render = render;
        self.filename = Some(filename);
        self.dirty = false;
        self.cx = 0;
        self.cy = 0;
        self.row_offset = 0;
        self.col_offset = 0;
    }

    /// Replaces the status message, which counts as set at the time `now`.
    pub fn set_status_message(&mut self, msg: Vec<u8>, now: u64)
        requires
            old(self).wf(),
        ensures
            final(self).wf(),
            final(self)@ == old(self)@.set_status_message(msg@, now as int),
    {
        self.status_msg = msg;
        self.status_msg_time = now;
    }

    /// Pulls the window over the cursor.
    pub fn scroll(&mut self)
        requires
            old(self).wf(),
        ensures
            final(self).wf(),
            final(self)@ == old(self)@.scroll(),
            final(self)@.in_view(),
    {
        let rx = self.convert_cx_to_rx();
        let rows = self.rows as usize;
        let cols = self.cols as usize;
        if self.cy < self.row_offset {
            self.row_offset = self.cy;
        } else if self.cy - self.row_offset >= rows {
            self.row_offset = self.cy - rows + 1;
        }
        if rx < self.col_offset {
            self.col_offset = rx;
        } else if rx - self.col_offset >= cols {
            self.col_offset = rx - cols + 1;
        }
    }

    /// Appends the text area to `buf`: for each row the visible part of its
    /// render line, or what stands for a row past the end of the document.
    pub fn draw_rows(&self, buf: &mut Vec<u8>)
        requires
            self.wf(),
        ensures
            final(buf)@ == old(buf)@ + self@.text_rows(self@.rows),
    {
        let mut row: u16 = 0;
        assert(buf@ =~= old(buf)@ + self@.text_rows(0));
        while row < self.rows
            invariant
                row <= self.rows,
                self.wf(),
                buf@ == old(buf)@ + self@.text_rows(row as int),
            decreases self.rows - row,
        {
            let ghost before = buf@;
            let r = row as usize;
            if self.row_offset < self.lines.len() && r < self.lines.len() - self.row_offset {
                push_visible(
                    buf,
                    &self.render[self.row_offset + r],
                    self.col_offset,
                    (self.cols - 1) as usize,
                );
            } else if self.lines.len() == 0 && row == self.rows / 2 {
                push_banner(buf, self.cols as usize);
            } else {
                push_text(buf, TILDE);
            }
            assert(buf@ == before + self@.text_row(row as int));
            push_text(buf, CLEAR_REST_OF_LINE);
            push_text(buf, LINE_BREAK);
            row += 1;
            assert(buf@ =~= old(buf)@ + self@.text_rows(row as int));
        }
    }

    /// The left part of the status bar.
    fn status_left(&self) -> (left: Vec<u8>)
        requires
            self.wf(),
        ensures
            left@ == self@.status_left(),
    {
        let mut left: Vec<u8> = Vec::new();
        match &self.filename {
            Some(name) => {
                push_bytes(&mut left, name);
            },
            None => {
                push_text(&mut left, NO_NAME);
            },
        }
        let ghost name = left@;
        push_text(&mut left, " ");
        if self.dirty {
            push_text(&mut left, MODIFIED);
        }
        let ghost marked = left@;
        assert(marked =~= name + " ".spec_bytes() + if self.dirty {
            MODIFIED.spec_bytes()
        } else {
            Seq::empty()
        });
        push_text(&mut left, " - ");
        push_decimal(&mut left, self.rows as u128);
        push_text(&mut left, " lines");
        assert(left@ =~= marked + " - ".spec_bytes() + decimal(self.rows as nat)
            + " lines".spec_bytes());
        left
    }

    /// The right part of the status bar.
    fn status_right(&self) -> (right: Vec<u8>)
        requires
            self.wf(),
        ensures
            right@ == self@.status_right(),
    {
        let mut right: Vec<u8> = Vec::new();
        push_decimal(&mut right, self.cy as u128 + 1);
        push_text(&mut right, "/");
        push_decimal(&mut right, self.lines.len() as u128);
        assert(right@ =~= self@.status_right());
        right
    }

    /// Appends the status bar to `buf`.
    pub fn draw_status_bar(&self, buf: &mut Vec<u8>)
        requires
            self.wf(),
        ensures
            final(buf)@ == old(buf)@ + self@.status_bar(),
    {
        let left = self.status_left();
        let right = self.status_right();
        push_status_line(buf, &left, &right, self.cols as usize);
    }

    /// Appends the message bar to `buf`: the status message, if at the time
    /// `now` it is not yet older than it may get.
    pub fn draw_message_bar(&self, buf: &mut Vec<u8>, now: u64)
        requires
            self.wf(),
        ensures
            final(buf)@ == old(buf)@ + self@.message_bar(now as int),
    {
        push_text(buf, CLEAR_REST_OF_LINE);
        if now < self.status_msg_time || now - self.status_msg_time < MESSAGE_TTL {
            push_bytes(buf, &self.status_msg);
        }
        assert(buf@ =~= old(buf)@ + self@.message_bar(now as int));
    }

    /// Pulls the window over the cursor and builds the frame that shows the
    /// editor at the time `now`.
    pub fn refresh_screen(&mut self, now: u64) -> (frame: Vec<u8>)
        requires
            old(self).wf(),
        ensures
            final(self).wf(),
            final(self)@.in_view(),
            final(self)@ == old(self)@.scroll(),
            frame@ == final(self)@.frame(now as int),
    {
        self.scroll();
        let rx = self.convert_cx_to_rx();
        let mut frame: Vec<u8> = Vec::new();
        push_text(&mut frame, HIDE_CURSOR);
        push_text(&mut frame, MOVE_CURSOR_TOP_LEFT);
        self.draw_rows(&mut frame);
        self.draw_status_bar(&mut frame);
        self.draw_message_bar(&mut frame, now);
        let place = move_cursor(
            (self.cy - self.row_offset + 1) as u32,
            (rx - self.col_offset + 1) as u32,
        );
        push_bytes(&mut frame, &place);
        push_text(&mut frame, SHOW_CURSOR);
        assert(frame@ =~= self@.frame(now as int));
        frame
    }

    /// Refreshes the screen and asks for the frame to be drawn.
    fn draw(&mut self, now: u64) -> (action: Action)
        requires
            old(self).wf(),
        ensures
            final(self).wf(),
            final(self)@.in_view(),
            (final(self)@, action@) == old(self)@.refresh(now as int),
    {
        Action::Draw(self.refresh_screen(now))
    }

    /// Starts a session: sets the help message and asks for the first frame
    /// to be drawn.
    pub fn start(&mut self, now: u64) -> (action: Action)
        requires
            old(self).wf(),
        ensures
            final(self).wf(),
            final(self)@.in_view(),
            (final(self)@, action@) == old(self)@.start(now as int),
    {
        self.quit_times = QUIT_TIMES;
        self.mode = Mode::Edit;
        let mut msg: Vec<u8> = Vec::new();
        push_text(&mut msg, HELP);
        self.set_status_message(msg, now);
        self.draw(now)
    }

    /// Applies a key that edits the document or moves the cursor.
    fn apply_key(&mut self, key: Key)
        requires
            old(self).wf(),
        ensures
            final(self).wf(),
            final(self)@ == old(self)@.apply_key(key),
    {
        match key {
            Key::Char(c) => {
                if key == Key::Char('l' as u8).control() {
                } else if c == BACKSPACE || key == Key::Char('h' as u8).control() {
                    self.backspace_char();
                } else if c == ENTER {
                    self.insert_newline();
                } else {
                    self.insert_char(c);
                }
            },
            Key::Special(EscapeSeq::Home) => {
                self.home();
            },
            Key::Special(EscapeSeq::End) => {
                self.end();
            },
            Key::Special(EscapeSeq::PageUp) => {
                self.page_up();
            },
            Key::Special(EscapeSeq::PageDown) => {
                self.page_down();
            },
            Key::Special(EscapeSeq::Delete) => {
                self.delete_char();
            },
            Key::Special(EscapeSeq::Escape) => {},
            Key::Special(_) => {
                self.move_cursor(key);
            },
        }
    }

    /// Shows the prompt for a file name with what was typed so far.
    fn prompting(&mut self, now: u64) -> (action: Action)
        requires
            old(self).wf(),
        ensures
            final(self).wf(),
            final(self)@.in_view(),
            (final(self)@, action@) == old(self)@.prompting(now as int),
    {
        let mut msg: Vec<u8> = Vec::new();
        push_text(&mut msg, FILENAME_PROMPT);
        push_bytes(&mut msg, &self.path);
        assert(msg@ =~= FILENAME_PROMPT.spec_bytes() + self@.path);
        self.set_status_message(msg, now);
        self.draw(now)
    }

    /// Makes the typed name the document's file name and hands the document
    /// out to be written there.
    fn accept_path(&mut self) -> (action: Action)
        requires
            old(self).wf(),
        ensures
            final(self).wf(),
            (final(self)@, action@) == old(self)@.accept_path(),
    {
        let mut path: Vec<u8> = Vec::new();
        push_bytes(&mut path, &self.path);
        let mut name: Vec<u8> = Vec::new();
        push_bytes(&mut name, &self.path);
        assert(path@ =~= self@.path);
        assert(name@ =~= self@.path);
        self.path = Vec::new();
        self.filename = Some(name);
        self.mode = Mode::Write;
        Action::Write(path, join(&self.lines))
    }

    /// Gives the save up and goes back to editing.
    fn abort_save(&mut self, now: u64) -> (action: Action)
        requires
            old(self).wf(),
        ensures
            final(self).wf(),
            final(self)@.in_view(),
            (final(self)@, action@) == old(self)@.abort_save(now as int),
    {
        self.path = Vec::new();
        self.mode = Mode::Edit;
        self.quit_times = QUIT_TIMES;
        let mut msg: Vec<u8> = Vec::new();
        push_text(&mut msg, SAVE_ABORTED);
        self.set_status_message(msg, now);
        self.draw(now)
    }

    /// Begins to save the document: hands it out to be written where it has
    /// a file name, and else asks for one.
    pub fn save(&mut self, now: u64) -> (action: Action)
        requires
            old(self).wf(),
        ensures
            final(self).wf(),
            (final(self)@, action@) == old(self)@.save(now as int),            action@ is Draw ==> final(self)@.in_view(),
    {
        match &self.filename {
            Some(name) => {
                let mut path: Vec<u8> = Vec::new();
                push_bytes(&mut path, name);
                assert(path@ =~= name@);
                self.mode = Mode::Write;
                Action::Write(path, join(&self.lines))
            },
            None => {
                self.path = Vec::new();
                self.mode = Mode::Prompt;
                self.prompting(now)
            },
        }
    }

    /// Handles a key while the document is edited.
    fn edit_key(&mut self, key: Key, now: u64) -> (action: Action)
        requires
            old(self).wf(),
        ensures
            final(self).wf(),
            (final(self)@, action@) == old(self)@.edit_key(key, now as int),            action@ is Draw ==> final(self)@.in_view(),
    {
        if key == Key::Char('q' as u8).control() {
            if self.dirty && self.quit_times > 1 {
                self.quit_times -= 1;
                let mut msg: Vec<u8> = Vec::new();
                push_text(&mut msg, QUIT_WARNING);
                push_decimal(&mut msg, self.quit_times as u128);
                if self.quit_times == 1 {
                    push_text(&mut msg, QUIT_WARNING_ONCE);
                } else {
                    push_text(&mut msg, QUIT_WARNING_MORE);
                }
                assert(msg@ =~= quit_warning(self@.quit_times));
                self.set_status_message(msg, now);
                self.draw(now)
            } else {
                Action::Quit
            }
        } else if key == Key::Char('s' as u8).control() {
            self.quit_times = QUIT_TIMES;
            self.save(now)
        } else {
            self.apply_key(key);
            self.quit_times = QUIT_TIMES;
            self.draw(now)
        }
    }

    /// Handles a key while a file name is typed.
    pub fn prompt(&mut self, key: Key, now: u64) -> (action: Action)
        requires
            old(self).wf(),
        ensures
            final(self).wf(),
            (final(self)@, action@) == old(self)@.prompt_key(key, now as int),            action@ is Draw ==> final(self)@.in_view(),
    {
        match key {
            Key::Char(c) => {
                if c == BACKSPACE {
                    let ghost before = self.path@;
                    self.path.pop();
                    assert(self.path@ =~= if before.len() > 0 {
                        before.drop_last()
                    } else {
                        before
                    });
                    self.prompting(now)
                } else if c == ENTER && self.path.len() > 0 {
                    let mut path: Vec<u8> = Vec::new();
                    push_bytes(&mut path, &self.path);
                    assert(path@ =~= self@.path);
                    self.mode = Mode::Probe;
                    Action::Probe(path)
                } else if !(c < 32 || (127 <= c && c < 160)) {
                    self.path.push(c);
                    self.prompting(now)
                } else {
                    self.prompting(now)
                }
            },
            Key::Special(EscapeSeq::Escape) => self.abort_save(now),
            Key::Special(_) => self.prompting(now),
        }
    }

    /// Handles a key after the question whether to overwrite a file.
    fn confirm_key(&mut self, key: Key, now: u64) -> (action: Action)
        requires
            old(self).wf(),
        ensures
            final(self).wf(),
            (final(self)@, action@) == old(self)@.confirm_key(key, now as int),            action@ is Draw ==> final(self)@.in_view(),
    {
        if key == Key::Char(OVERWRITE) {
            self.accept_path()
        } else {
            self.abort_save(now)
        }
    }

    /// Handles one key and says what is to be done next.
    pub fn process_keypress(&mut self, key: Key, now: u64) -> (action: Action)
        requires
            old(self).wf(),
        ensures
            final(self).wf(),
            (final(self)@, action@) == old(self)@.process_keypress(key, now as int),
            action@ is Draw ==> final(self)@.in_view(),
    {
        match self.mode {
            Mode::Edit => self.edit_key(key, now),
            Mode::Prompt => self.prompt(key, now),
            Mode::Confirm => self.confirm_key(key, now),
            _ => self.draw(now),
        }
    }

    /// Takes the answer to whether a file of the typed name exists.
    pub fn probed(&mut self, exists: bool, now: u64) -> (action: Action)
        requires
            old(self).wf(),
        ensures
            final(self).wf(),
            (final(self)@, action@) == old(self)@.probed(exists, now as int),
            action@ is Draw ==> final(self)@.in_view(),
    {
        if self.mode != Mode::Probe {
            self.draw(now)
        } else if exists {
            self.mode = Mode::Confirm;
            let mut msg: Vec<u8> = Vec::new();
            push_text(&mut msg, OVERWRITE_WARNING);
            self.set_status_message(msg, now);
            self.draw(now)
        } else {
            self.accept_path()
        }
    }

    /// Takes the outcome of writing the document: the number of bytes
    /// written, or the reason why it could not be written.
    pub fn written(&mut self, outcome: Result<usize, Vec<u8>>, now: u64) -> (action: Action)
        requires
            old(self).wf(),
        ensures
            final(self).wf(),
            final(self)@.in_view(),
            (final(self)@, action@) == old(self)@.written(
                match outcome {
                    Ok(n) => Ok(n),
                    Err(reason) => Err(reason@),
                },
                now as int,
            ),
    {
        if self.mode != Mode::Write {
            return self.draw(now);
        }
        self.mode = Mode::Edit;
        self.quit_times = QUIT_TIMES;
        let mut msg: Vec<u8> = Vec::new();
        match outcome {
            Ok(n) => {
                self.dirty = false;
                if n > 0 {
                    push_decimal(&mut msg, n as u128);
                    push_text(&mut msg, BYTES_WRITTEN);
                } else {
                    push_text(&mut msg, SAVE_ABORTED);
                }
                assert(msg@ =~= written_message(n as nat));
            },
            Err(reason) => {
                push_text(&mut msg, SAVE_FAILED);
                push_bytes(&mut msg, &reason);
                assert(msg@ =~= SAVE_FAILED.spec_bytes() + reason@);
            },
        }
        self.set_status_message(msg, now);
        self.draw(now)
    }
}

} // verus!
