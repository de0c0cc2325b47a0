//! The persisted format: a file is its lines joined by single newlines, and
//! loading splits it at the line boundaries again.

use vstd::prelude::*;

verus! {

/// The byte that ends a line in a file.
pub const NEWLINE: u8 = 10;

/// The byte that may stand before a newline and then belongs to the line
/// boundary.
pub const CARRIAGE_RETURN: u8 = 13;

/// The lines of a document as sequences of bytes.
pub open spec fn lines_view(lines: Seq<Vec<u8>>) -> Seq<Seq<u8>> {
    lines.map_values(|line: Vec<u8>| line@)
}

/// The index of the first newline in `s`, or the length of `s` where it holds
/// none.
pub open spec fn first_newline(s: Seq<u8>) -> nat
    decreases s.len(),
{
    if s.len() == 0 || s[0] == NEWLINE {
        0
    } else {
        1 + first_newline(s.skip(1))
    }
}

/// Whether `line` holds no newline.
pub open spec fn has_no_newline(line: Seq<u8>) -> bool {
    forall|i: int| 0 <= i < line.len() ==> line[i] != NEWLINE
}

/// Whether `line` ends with a carriage return.
pub open spec fn ends_with_cr(line: Seq<u8>) -> bool {
    line.len() > 0 && line.last() == CARRIAGE_RETURN
}

/// `line` without the carriage return at its end, if it has one.
pub open spec fn strip_cr(line: Seq<u8>) -> Seq<u8> {
    if ends_with_cr(line) {
        line.drop_last()
    } else {
        line
    }
}

/// The lines of a file. Each newline ends a line, and a carriage return just
/// before it goes with it. What follows the last newline is a line too, kept
/// as it is, unless nothing follows it.
pub open spec fn split_lines(s: Seq<u8>) -> Seq<Seq<u8>>
    decreases s.len(),
{
    if s.len() == 0 {
        Seq::empty()
    } else {
        let end = first_newline(s);
        if end >= s.len() {
            seq![s]
        } else {
            seq![strip_cr(s.take(end as int))] + split_lines(s.skip(end as int + 1))
        }
    }
}

/// The lines joined by single newlines, with none after the last line.
pub open spec fn join_lines(lines: Seq<Seq<u8>>) -> Seq<u8>
    decreases lines.len(),
{
    if lines.len() == 0 {
        Seq::empty()
    } else if lines.len() == 1 {
        lines[0]
    } else {
        join_lines(lines.drop_last()) + seq![NEWLINE] + lines.last()
    }
}

/// Whether saving `lines` and loading the file again gives `lines` back: no
/// line holds a newline, the last line is not empty, and no line before the
/// last ends with a carriage return.
pub open spec fn survives_saving(lines: Seq<Seq<u8>>) -> bool {
    &&& forall|i: int| 0 <= i < lines.len() ==> has_no_newline(#[trigger] lines[i])
    &&& lines.len() > 0 ==> lines.last().len() > 0
    &&& forall|i: int| 0 <= i < lines.len() - 1 ==> !ends_with_cr(#[trigger] lines[i])
}

/// Where the first newline stands: after a stretch without one.
pub proof fn lemma_first_newline(s: Seq<u8>, k: int)
    requires
        0 <= k <= s.len(),
        forall|i: int| 0 <= i < k ==> s[i] != NEWLINE,
        k < s.len() ==> s[k] == NEWLINE,
    ensures
        first_newline(s) == k,
    decreases k,
{
    if k > 0 {
        lemma_first_newline(s.skip(1), k - 1);
    }
}

/// The first newline stands inside the sequence or at its end, and nothing
/// before it is a newline.
pub proof fn lemma_first_newline_bounds(s: Seq<u8>)
    ensures
        first_newline(s) <= s.len(),
        forall|i: int| 0 <= i < first_newline(s) ==> s[i] != NEWLINE,
        first_newline(s) < s.len() ==> s[first_newline(s) as int] == NEWLINE,
    decreases s.len(),
{
    if !(s.len() == 0 || s[0] == NEWLINE) {
        let rest = s.skip(1);
        lemma_first_newline_bounds(rest);
        assert forall|i: int| 0 <= i < first_newline(s) implies s[i] != NEWLINE by {
            if i > 0 {
                assert(s[i] == rest[i - 1]);
            }
        }
    }
}

/// No line of a file holds a newline.
pub proof fn lemma_split_lines_hold_no_newline(s: Seq<u8>)
    ensures
        forall|i: int|
            0 <= i < split_lines(s).len() ==> has_no_newline(#[trigger] split_lines(s)[i]),
    decreases s.len(),
{
    if s.len() > 0 {
        lemma_first_newline_bounds(s);
        let end = first_newline(s);
        if end < s.len() {
            lemma_split_lines_hold_no_newline(s.skip(end as int + 1));
            let head = strip_cr(s.take(end as int));
            assert(has_no_newline(head));
            let rest = split_lines(s.skip(end as int + 1));
            assert forall|i: int| 0 <= i < split_lines(s).len() implies has_no_newline(
                #[trigger] split_lines(s)[i],
            ) by {
                if i > 0 {
                    assert(split_lines(s)[i] == rest[i - 1]);
                }
            }
        }
    }
}

/// Joining goes line by line from the front too.
pub proof fn lemma_join_lines_front(lines: Seq<Seq<u8>>)
    requires
        lines.len() >= 2,
    ensures
        join_lines(lines) == lines[0] + seq![NEWLINE] + join_lines(lines.skip(1)),
    decreases lines.len(),
{
    let front = lines.drop_last();
    let rest = lines.skip(1);
    if lines.len() == 2 {
        assert(join_lines(front) == lines[0]);
        assert(join_lines(rest) == lines[1]);
    } else {
        lemma_join_lines_front(front);
        assert(front.skip(1) =~= rest.drop_last());
        assert(rest.last() == lines.last());
        assert(join_lines(lines) =~= lines[0] + seq![NEWLINE] + join_lines(rest));
    }
}

/// Lines that survive saving come back from the file they were joined into.
pub proof fn lemma_split_join(lines: Seq<Seq<u8>>)
    requires
        survives_saving(lines),
    ensures
        split_lines(join_lines(lines)) == lines,
    decreases lines.len(),
{
    if lines.len() == 0 {
    } else if lines.len() == 1 {
        lemma_first_newline(lines[0], lines[0].len() as int);
        assert(split_lines(lines[0]) =~= lines);
    } else {
        let head = lines[0];
        let rest = lines.skip(1);
        let file = join_lines(lines);
        lemma_join_lines_front(lines);
        assert(rest.last() == lines.last());
        assert forall|i: int| 0 <= i < rest.len() implies has_no_newline(#[trigger] rest[i]) by {
            assert(rest[i] == lines[i + 1]);
        }
        assert forall|i: int| 0 <= i < rest.len() - 1 implies !ends_with_cr(#[trigger] rest[i]) by {
            assert(rest[i] == lines[i + 1]);
        }
        lemma_split_join(rest);
        assert(has_no_newline(head));
        lemma_first_newline(file, head.len() as int);
        assert(file.take(head.len() as int) =~= head);
        assert(file.skip(head.len() as int + 1) =~= join_lines(rest));
        assert(!ends_with_cr(lines[0]));
        assert(split_lines(file) =~= lines);
    }
}

/// Loading a file, saving its lines and loading what was saved gives the same
/// lines as the first load. This holds of every file whose last line is not
/// empty and in which no line but the last ends with a carriage return; of
/// the others the saved file has a line less, or a line shorter by that
/// carriage return.
pub proof fn load_save_load(file: Seq<u8>)
    requires
        split_lines(file).len() > 0 ==> split_lines(file).last().len() > 0,
        forall|i: int|
            0 <= i < split_lines(file).len() - 1 ==> !ends_with_cr(#[trigger] split_lines(file)[i]),
    ensures
        split_lines(join_lines(split_lines(file))) == split_lines(file),
{
    lemma_split_lines_hold_no_newline(file);
    lemma_split_join(split_lines(file));
}

/// Splits the content of a file into its lines.
pub fn split(content: &[u8]) -> (lines: Vec<Vec<u8>>)
    ensures
        lines_view(lines@) == split_lines(content@),
{
    let mut lines: Vec<Vec<u8>> = Vec::new();
    let mut line: Vec<u8> = Vec::new();
    let mut start: usize = 0;
    let mut i: usize = 0;
    assert(content@.skip(0) =~= content@);
    assert(lines_view(lines@) =~= Seq::empty());
    while i < content.len()
        invariant
            start <= i <= content.len(),
            line@ == content@.subrange(start as int, i as int),
            forall|j: int| start <= j < i ==> content@[j] != NEWLINE,
            split_lines(content@) == lines_view(lines@) + split_lines(content@.skip(start as int)),
        decreases content.len() - i,
    {
        let b = content[i];
        if b == NEWLINE {
            let ghost rest = content@.skip(start as int);
            let ghost raw = line@;
            proof {
                lemma_first_newline(rest, i - start);
                assert(rest.take(i - start) =~= raw);
                assert(rest.skip(i - start + 1) =~= content@.skip(i + 1));
            }
            if line.len() > 0 && line[line.len() - 1] == CARRIAGE_RETURN {
                line.pop();
            }
            assert(line@ =~= strip_cr(raw));
            let ghost done = lines@;
            lines.push(line);
            line = Vec::new();
            start = i + 1;
            proof {
                assert(lines_view(lines@) =~= lines_view(done) + seq![strip_cr(raw)]);
                assert(split_lines(content@) =~= lines_view(lines@) + split_lines(
                    content@.skip(start as int),
                ));
            }
        } else {
            line.push(b);
        }
        i += 1;
        assert(line@ =~= content@.subrange(start as int, i as int));
    }
    if start < content.len() {
        let ghost rest = content@.skip(start as int);
        let ghost done = lines@;
        proof {
            lemma_first_newline(rest, rest.len() as int);
            assert(line@ =~= rest);
        }
        lines.push(line);
        assert(lines_view(lines@) =~= lines_view(done) + seq![rest]);
    } else {
        assert(split_lines(content@.skip(start as int)) =~= Seq::empty());
    }
    lines
}

/// Joins the lines of a document into the content of its file.
pub fn join(lines: &Vec<Vec<u8>>) -> (out: Vec<u8>)
    ensures
        out@ == join_lines(lines_view(lines@)),
{
    let mut out: Vec<u8> = Vec::new();
    let mut i: usize = 0;
    let ghost all = lines_view(lines@);
    while i < lines.len()
        invariant
            i <= lines.len(),
            all == lines_view(lines@),
            out@ == join_lines(all.take(i as int)),
        decreases lines.len() - i,
    {
        proof {
            let longer = all.take(i + 1);
            assert(longer.drop_last() =~= all.take(i as int));
            assert(longer.last() == lines@[i as int]@);
        }
        if i > 0 {
            out.push(NEWLINE);
        }
        out.extend_from_slice(lines[i].as_slice());
        i += 1;
        assert(out@ =~= join_lines(all.take(i as int)));
    }
    assert(all.take(i as int) =~= all);
    out
}

} // verus!
