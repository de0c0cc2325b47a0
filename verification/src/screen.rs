//! What a frame looks like: the text area, the status bar, the message bar
//! and the cursor, as the bytes that draw them.

use vstd::prelude::*;
use vstd::string::StringSliceAdditionalSpecFns;
use crate::command::{
    cursor_to, decimal, push_bytes, push_text, CLEAR_REST_OF_LINE, HIDE_CURSOR, INVERTED_COLORS, LINE_BREAK,
    MOVE_CURSOR_TOP_LEFT, NORMAL_COLORS, SHOW_CURSOR,
};
use crate::row::{expand_tabs, spaces, SPACE};
use crate::state::{State, MESSAGE_TTL};

verus! {

/// What an empty document shows in the middle of the text area.
pub const WELCOME: &'static str = "Mega editor -- version 0.1.0";

/// What stands in a row of the text area that is past the end of the
/// document.
pub const TILDE: &'static str = "~";

/// What the status bar shows for a document without a file name.
pub const NO_NAME: &'static str = "[No Name]";

/// What the status bar shows for a document with unsaved changes.
pub const MODIFIED: &'static str = "(modified)";

/// The part of a render line that the window shows: from column `offset`
/// on, `width` columns at most.
pub open spec fn visible(render: Seq<u8>, offset: int, width: int) -> Seq<u8> {
    let from = if offset < render.len() {
        offset
    } else {
        render.len() as int
    };
    let to = if render.len() - from > width {
        from + width
    } else {
        render.len() as int
    };
    render.subrange(from, to)
}

/// The welcome text in the middle of a row of `cols` columns, cut to the
/// width of the window; a tilde in the first column where there is room
/// before the text.
pub open spec fn banner(cols: int) -> Seq<u8> {
    let text = WELCOME.spec_bytes();
    let len = if text.len() <= cols {
        text.len() as int
    } else {
        cols
    };
    let padding = (cols - len) / 2;
    if padding > 0 {
        TILDE.spec_bytes() + spaces((padding - 1) as nat) + text.take(len)
    } else {
        text.take(len)
    }
}

/// How much of the left part of a status bar a window of `cols` columns
/// shows: all of it, or as much as the window is wide.
pub open spec fn status_cut(left: Seq<u8>, cols: int) -> int {
    if left.len() <= cols {
        left.len() as int
    } else {
        cols
    }
}

/// The number of spaces between the two parts of a status bar: as many as
/// push the right part to the right edge, or none where the parts fill the
/// window.
pub open spec fn status_gap(left: Seq<u8>, right: Seq<u8>, cols: int) -> int {
    if cols - right.len() > status_cut(left, cols) {
        cols - right.len() - status_cut(left, cols)
    } else {
        0
    }
}

/// A status bar, in inverse video: the left part cut to the width of the
/// window, the whole right part, and between them the spaces that push the
/// right part to the right edge; then normal video again and a line break.
pub open spec fn status_line(left: Seq<u8>, right: Seq<u8>, cols: int) -> Seq<u8> {
    INVERTED_COLORS.spec_bytes() + left.take(status_cut(left, cols)) + spaces(
        status_gap(left, right, cols) as nat,
    ) + right + NORMAL_COLORS.spec_bytes() + LINE_BREAK.spec_bytes()
}

/// Appends `n` spaces to `buf`.
pub fn push_spaces(buf: &mut Vec<u8>, n: usize)
    ensures
        final(buf)@ == old(buf)@ + spaces(n as nat),
{
    let mut k: usize = 0;
    assert(buf@ =~= old(buf)@ + spaces(0));
    while k < n
        invariant
            k <= n,
            buf@ == old(buf)@ + spaces(k as nat),
        decreases n - k,
    {
        buf.push(SPACE);
        k += 1;
        assert(buf@ =~= old(buf)@ + spaces(k as nat));
    }
}

/// Appends the first `n` bytes of `bytes` to `buf`.
pub fn push_prefix(buf: &mut Vec<u8>, bytes: &[u8], n: usize)
    requires
        n <= bytes@.len(),
    ensures
        final(buf)@ == old(buf)@ + bytes@.take(n as int),
{
    buf.extend_from_slice(vstd::slice::slice_subrange(bytes, 0, n));
    assert(buf@ =~= old(buf)@ + bytes@.take(n as int));
}

/// Appends to `buf` the part of a render line that a window shows from
/// column `offset` on, `width` columns wide.
pub fn push_visible(buf: &mut Vec<u8>, render: &Vec<u8>, offset: usize, width: usize)
    ensures
        final(buf)@ == old(buf)@ + visible(render@, offset as int, width as int),
{
    let len = render.len();
    let from = if offset < len {
        offset
    } else {
        len
    };
    let to = if len - from > width {
        from + width
    } else {
        len
    };
    buf.extend_from_slice(vstd::slice::slice_subrange(render.as_slice(), from, to));
    assert(buf@ =~= old(buf)@ + visible(render@, offset as int, width as int));
}

/// Appends to `buf` the status bar with the given parts for a window of
/// `cols` columns.
pub fn push_status_line(buf: &mut Vec<u8>, left: &Vec<u8>, right: &Vec<u8>, cols: usize)
    ensures
        final(buf)@ == old(buf)@ + status_line(left@, right@, cols as int),
{
    let len = if left.len() <= cols {
        left.len()
    } else {
        cols
    };
    let gap = if cols > right.len() && cols - right.len() > len {
        cols - right.len() - len
    } else {
        0
    };
    assert(len == status_cut(left@, cols as int));
    assert(gap == status_gap(left@, right@, cols as int));
    let ghost start = buf@;
    push_text(buf, INVERTED_COLORS);
    push_prefix(buf, left.as_slice(), len);
    push_spaces(buf, gap);
    let ghost padded = buf@;
    push_bytes(buf, right);
    push_text(buf, NORMAL_COLORS);
    push_text(buf, LINE_BREAK);
    assert(buf@ == padded + right@ + NORMAL_COLORS.spec_bytes() + LINE_BREAK.spec_bytes());
    assert(padded == start + INVERTED_COLORS.spec_bytes() + left@.take(len as int) + spaces(
        gap as nat,
    ));
    assert(buf@ =~= start + status_line(left@, right@, cols as int));
}

/// Appends the banner for a window of `cols` columns to `buf`.
pub fn push_banner(buf: &mut Vec<u8>, cols: usize)
    ensures
        final(buf)@ == old(buf)@ + banner(cols as int),
{
    let text = WELCOME.as_bytes();
    let len = if text.len() <= cols {
        text.len()
    } else {
        cols
    };
    let padding = (cols - len) / 2;
    if padding > 0 {
        push_text(buf, TILDE);
        push_spaces(buf, padding - 1);
    }
    push_prefix(buf, text, len);
    assert(buf@ =~= old(buf)@ + banner(cols as int));
}

impl State {
    /// The content of row `r` of the text area: the visible part of the
    /// render line shown there; past the end of the document a tilde, or on
    /// the middle row of an empty document the banner.
    pub open spec fn text_row(self, r: int) -> Seq<u8> {
        let file_row = r + self.row_offset;
        if file_row < self.lines.len() {
            visible(expand_tabs(self.lines[file_row]), self.col_offset, self.cols - 1)
        } else if self.lines.len() == 0 && r == self.rows / 2 {
            banner(self.cols)
        } else {
            TILDE.spec_bytes()
        }
    }

    /// The first `n` rows of the text area, each cleared to the end of the
    /// line behind its content and ended with a line break.
    pub open spec fn text_rows(self, n: int) -> Seq<u8>
        decreases n,
    {
        if n <= 0 {
            Seq::empty()
        } else {
            self.text_rows(n - 1) + self.text_row(n - 1) + CLEAR_REST_OF_LINE.spec_bytes()
                + LINE_BREAK.spec_bytes()
        }
    }

    /// The left part of the status bar: the name of the file or its
    /// placeholder, whether the document was modified, and the height of the
    /// text area.
    pub open spec fn status_left(self) -> Seq<u8> {
        let name = match self.filename {
            Some(name) => name,
            None => NO_NAME.spec_bytes(),
        };
        let modified = if self.dirty {
            MODIFIED.spec_bytes()
        } else {
            Seq::empty()
        };
        name + " ".spec_bytes() + modified + " - ".spec_bytes() + decimal(self.rows as nat)
            + " lines".spec_bytes()
    }

    /// The right part of the status bar: the cursor's row, counted from 1,
    /// and the number of lines.
    pub open spec fn status_right(self) -> Seq<u8> {
        decimal((self.cy + 1) as nat) + "/".spec_bytes() + decimal(self.lines.len())
    }

    /// The status bar of the state.
    pub open spec fn status_bar(self) -> Seq<u8> {
        status_line(self.status_left(), self.status_right(), self.cols)
    }

    /// Whether the status message is still shown at the time `now`.
    pub open spec fn message_is_fresh(self, now: int) -> bool {
        now - self.status_msg_time < MESSAGE_TTL
    }

    /// The message bar: the status message while it is fresh, else nothing.
    pub open spec fn message_bar(self, now: int) -> Seq<u8> {
        if self.message_is_fresh(now) {
            CLEAR_REST_OF_LINE.spec_bytes() + self.status_msg
        } else {
            CLEAR_REST_OF_LINE.spec_bytes()
        }
    }

    /// Where the frame puts the cursor: its row and column in the window,
    /// counted from 1.
    pub open spec fn cursor_place(self) -> Seq<u8> {
        cursor_to((self.cy - self.row_offset + 1) as nat, (self.rx() - self.col_offset + 1) as nat)
    }

    /// One whole frame at the time `now`: the cursor hidden and the
    /// write-head sent home, the text area, the status bar, the message bar,
    /// and the cursor placed and shown again.
    pub open spec fn frame(self, now: int) -> Seq<u8> {
        HIDE_CURSOR.spec_bytes() + MOVE_CURSOR_TOP_LEFT.spec_bytes() + self.text_rows(self.rows)
            + self.status_bar() + self.message_bar(now) + self.cursor_place()
            + SHOW_CURSOR.spec_bytes()
    }
}

} // verus!
