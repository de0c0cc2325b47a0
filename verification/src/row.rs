//! Tab expansion: how a line of the file becomes a line of the screen, and
//! where a file column lands in it.

use vstd::prelude::*;

verus! {

/// The tab character.
pub const TAB: u8 = 9;

/// The space character.
pub const SPACE: u8 = 32;

/// Tab stops stand at every multiple of this many columns.
pub const TAB_STOP: usize = 8;

/// The number of columns from `col` to the next tab stop: between 1 and
/// `TAB_STOP`.
pub open spec fn tab_width(col: nat) -> nat {
    (TAB_STOP - col % (TAB_STOP as nat)) as nat
}

/// `n` space characters.
pub open spec fn spaces(n: nat) -> Seq<u8> {
    Seq::new(n, |i: int| SPACE)
}

/// The render line of `line`: every character stands for itself, except a
/// tab, which becomes the spaces that reach the next tab stop.
pub open spec fn expand_tabs(line: Seq<u8>) -> Seq<u8>
    decreases line.len(),
{
    if line.len() == 0 {
        Seq::empty()
    } else {
        let before = expand_tabs(line.drop_last());
        if line.last() == TAB {
            before + spaces(tab_width(before.len()))
        } else {
            before.push(line.last())
        }
    }
}

/// The render column of file column `cx` in `line`: one column for each
/// character before `cx`, and for a tab the columns up to the next tab stop.
/// A `cx` past the end of the line counts as the end of the line.
pub open spec fn render_col(line: Seq<u8>, cx: int) -> nat
    decreases cx,
{
    if cx <= 0 {
        0
    } else if cx > line.len() {
        render_col(line, line.len() as int)
    } else {
        let before = render_col(line, cx - 1);
        if line[cx - 1] == TAB {
            before + tab_width(before)
        } else {
            before + 1
        }
    }
}

/// Whether one of the first `cx` characters of `line` is a tab.
pub open spec fn has_tab_before(line: Seq<u8>, cx: int) -> bool {
    exists|i: int| 0 <= i < cx && i < line.len() && line[i] == TAB
}

/// Whether one of the first `cx` characters of `line` is a tab that is wider
/// than one column, that is, a tab that does not stand on the last column
/// before a tab stop.
pub open spec fn has_wide_tab_before(line: Seq<u8>, cx: int) -> bool {
    exists|i: int|
        0 <= i < cx && i < line.len() && line[i] == TAB && tab_width(render_col(line, i)) > 1
}

/// A tab is between 1 and `TAB_STOP` columns wide and ends on a tab stop.
pub proof fn lemma_tab_width(col: nat)
    ensures
        1 <= tab_width(col) <= TAB_STOP,
        (col + tab_width(col)) % (TAB_STOP as nat) == 0,
        tab_width(col) == 1 <==> col % (TAB_STOP as nat) == TAB_STOP - 1,
{
}

/// The render column of a position depends only on the characters before it.
pub proof fn lemma_render_col_take(line: Seq<u8>, n: int, cx: int)
    requires
        0 <= cx <= n <= line.len(),
    ensures
        render_col(line.take(n), cx) == render_col(line, cx),
    decreases cx,
{
    if cx > 0 {
        lemma_render_col_take(line, n, cx - 1);
    }
}

/// The render column never decreases along the line.
pub proof fn lemma_render_col_monotone(line: Seq<u8>, a: int, b: int)
    requires
        0 <= a <= b <= line.len(),
    ensures
        render_col(line, a) + (b - a) <= render_col(line, b),
    decreases b - a,
{
    if a < b {
        lemma_render_col_monotone(line, a, b - 1);
        lemma_tab_width(render_col(line, b - 1));
    }
}

/// The render line of a prefix of `line` is as long as the render column of
/// the prefix's end.
pub proof fn lemma_expand_len(line: Seq<u8>)
    ensures
        expand_tabs(line).len() == render_col(line, line.len() as int),
    decreases line.len(),
{
    if line.len() > 0 {
        let front = line.drop_last();
        lemma_expand_len(front);
        assert(front =~= line.take(line.len() - 1));
        lemma_render_col_take(line, line.len() - 1, line.len() - 1);
    }
}

/// The render line of a prefix of `line` is a prefix of the render line of
/// `line`, and it ends at the render column of the prefix's end.
pub proof fn lemma_expand_prefix(line: Seq<u8>, cx: int)
    requires
        0 <= cx <= line.len(),
    ensures
        render_col(line, cx) <= expand_tabs(line).len(),
        expand_tabs(line.take(cx)) == expand_tabs(line).take(render_col(line, cx) as int),
    decreases line.len() - cx,
{
    lemma_expand_len(line.take(cx));
    lemma_render_col_take(line, cx, cx);
    if cx == line.len() {
        assert(line.take(cx) =~= line);
        lemma_expand_len(line);
        assert(expand_tabs(line).take(expand_tabs(line).len() as int) =~= expand_tabs(line));
    } else {
        lemma_expand_prefix(line, cx + 1);
        let longer = line.take(cx + 1);
        assert(longer.drop_last() =~= line.take(cx));
        assert(longer.last() == line[cx]);
        lemma_expand_len(longer);
        lemma_render_col_take(line, cx + 1, cx + 1);
        lemma_tab_width(render_col(line, cx));
        let whole = expand_tabs(line);
        let mid = render_col(line, cx + 1) as int;
        let low = render_col(line, cx) as int;
        assert(expand_tabs(longer) == whole.take(mid));
        assert(expand_tabs(line.take(cx)) =~= expand_tabs(longer).take(low));
        assert(whole.take(mid).take(low) =~= whole.take(low));
    }
}

/// For every line and every column of it, the render column is at least the
/// file column.
pub proof fn render_col_at_least_cx(line: Seq<u8>, cx: int)
    requires
        0 <= cx <= line.len(),
    ensures
        render_col(line, cx) >= cx,
{
    lemma_render_col_monotone(line, 0, cx);
}

/// The render column equals the file column exactly when every tab before it
/// is one column wide.
pub proof fn lemma_render_col_equal(line: Seq<u8>, cx: int)
    requires
        0 <= cx <= line.len(),
    ensures
        render_col(line, cx) == cx <==> !has_wide_tab_before(line, cx),
    decreases cx,
{
    if cx > 0 {
        lemma_render_col_equal(line, cx - 1);
        lemma_render_col_monotone(line, 0, cx - 1);
        lemma_tab_width(render_col(line, cx - 1));
        if has_wide_tab_before(line, cx - 1) {
            let i = choose|i: int|
                0 <= i < cx - 1 && i < line.len() && line[i] == TAB && tab_width(
                    render_col(line, i),
                ) > 1;
            assert(0 <= i < cx && i < line.len() && line[i] == TAB && tab_width(
                render_col(line, i),
            ) > 1);
        } else if line[cx - 1] == TAB && tab_width(render_col(line, cx - 1)) > 1 {
            assert(has_wide_tab_before(line, cx));
        } else {
            assert forall|i: int|
                0 <= i < cx && i < line.len() && line[i] == TAB implies !(tab_width(
                render_col(line, i),
            ) > 1) by {
                if i < cx - 1 {
                    assert(!has_wide_tab_before(line, cx - 1));
                }
            }
        }
    }
}

/// For every line and every column of it, the render column equals the file
/// column if and only if no tab stands before the column. This leaves out the
/// lines in which every tab before the column is one column wide, each on the
/// last column before a tab stop: there the two are equal although a tab
/// stands before the column.
pub proof fn render_col_equals_cx_iff_no_tab(line: Seq<u8>, cx: int)
    requires
        0 <= cx <= line.len(),
        has_tab_before(line, cx) ==> has_wide_tab_before(line, cx),
    ensures
        render_col(line, cx) == cx <==> !has_tab_before(line, cx),
{
    lemma_render_col_equal(line, cx);
    if has_wide_tab_before(line, cx) {
        let i = choose|i: int|
            0 <= i < cx && i < line.len() && line[i] == TAB && tab_width(render_col(line, i)) > 1;
        assert(0 <= i < cx && i < line.len() && line[i] == TAB);
    }
}

/// A character put into a line at column `cx` leaves alone what is rendered
/// before the render column of `cx`, and unless it is a tab it stands in the
/// render line at that render column.
pub proof fn inserted_char_lands_at_render_col(line: Seq<u8>, cx: int, c: u8)
    requires
        0 <= cx <= line.len(),
    ensures
        render_col(line.insert(cx, c), cx) == render_col(line, cx),
        expand_tabs(line.insert(cx, c)).take(render_col(line, cx) as int) == expand_tabs(line).take(
            render_col(line, cx) as int,
        ),
        c != TAB ==> render_col(line, cx) < expand_tabs(line.insert(cx, c)).len() && expand_tabs(
            line.insert(cx, c),
        )[render_col(line, cx) as int] == c,
{
    let longer = line.insert(cx, c);
    assert(longer.take(cx) =~= line.take(cx));
    lemma_render_col_take(longer, cx, cx);
    lemma_render_col_take(line, cx, cx);
    lemma_expand_prefix(longer, cx);
    lemma_expand_prefix(line, cx);
    lemma_expand_prefix(longer, cx + 1);
    if c != TAB {
        let upto = longer.take(cx + 1);
        assert(upto.drop_last() =~= longer.take(cx));
        assert(upto.last() == c);
        assert(expand_tabs(upto) == expand_tabs(longer.take(cx)).push(c));
        lemma_expand_len(longer.take(cx));
        assert(expand_tabs(upto)[render_col(line, cx) as int] == c);
    }
}

/// Builds the render line of `line`.
pub fn render_row(line: &Vec<u8>) -> (out: Vec<u8>)
    ensures
        out@ == expand_tabs(line@),
{
    let mut out: Vec<u8> = Vec::new();
    let mut i: usize = 0;
    while i < line.len()
        invariant
            i <= line.len(),
            out@ == expand_tabs(line@.take(i as int)),
        decreases line.len() - i,
    {
        let c = line[i];
        proof {
            let longer = line@.take(i + 1);
            assert(longer.drop_last() =~= line@.take(i as int));
            assert(longer.last() == c);
        }
        if c == TAB {
            let width: usize = TAB_STOP - out.len() % TAB_STOP;
            let ghost before = out@;
            let mut k: usize = 0;
            while k < width
                invariant
                    k <= width,
                    out@ == before + spaces(k as nat),
                decreases width - k,
            {
                out.push(SPACE);
                k += 1;
                assert(out@ =~= before + spaces(k as nat));
            }
        } else {
            out.push(c);
        }
        i += 1;
    }
    assert(line@.take(i as int) =~= line@);
    out
}

/// The render column of file column `cx` of `line`.
pub fn cx_to_rx(line: &Vec<u8>, cx: usize) -> (rx: usize)
    requires
        cx <= line.len(),
        render_col(line@, cx as int) <= usize::MAX,
    ensures
        rx == render_col(line@, cx as int),
{
    let mut rx: usize = 0;
    let mut i: usize = 0;
    while i < cx
        invariant
            i <= cx <= line.len(),
            rx == render_col(line@, i as int),
            render_col(line@, cx as int) <= usize::MAX,
        decreases cx - i,
    {
        proof {
            lemma_render_col_monotone(line@, i + 1, cx as int);
        }
        if line[i] == TAB {
            rx += TAB_STOP - rx % TAB_STOP;
        } else {
            rx += 1;
        }
        i += 1;
    }
    rx
}

} // verus!
