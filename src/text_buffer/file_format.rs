use vstd::prelude::*;

use super::row_buffer::RowBuffer;

verus! {

// A file holds one row per line; every line ends with a newline when written.
// When read, the text is cut at each newline, a last line without a newline is
// kept when it is not empty, and whitespace at the end of each line is dropped.
/// The characters that carry Unicode's White_Space property, which is what
/// `char::is_whitespace` tests.
pub open spec fn is_whitespace_char(c: char) -> bool {
    ('\u{9}' <= c && c <= '\u{d}') || c == ' ' || c == '\u{85}' || c == '\u{a0}'
        || c == '\u{1680}' || ('\u{2000}' <= c && c <= '\u{200a}') || c == '\u{2028}'
        || c == '\u{2029}' || c == '\u{202f}' || c == '\u{205f}' || c == '\u{3000}'
}

/// `s` without the whitespace at its end.
pub open spec fn trim_end(s: Seq<char>) -> Seq<char>
    decreases s.len(),
{
    if s.len() > 0 && is_whitespace_char(s.last()) {
        trim_end(s.drop_last())
    } else {
        s
    }
}

/// The characters of `t` after its last newline (all of `t` if it has none).
pub open spec fn pending_line(t: Seq<char>) -> Seq<char>
    decreases t.len(),
{
    if t.len() == 0 {
        Seq::empty()
    } else if t.last() == '\n' {
        Seq::empty()
    } else {
        pending_line(t.drop_last()).push(t.last())
    }
}

/// The lines of `t` that a newline ends, in order, without their newlines.
pub open spec fn complete_lines(t: Seq<char>) -> Seq<Seq<char>>
    decreases t.len(),
{
    if t.len() == 0 {
        Seq::empty()
    } else if t.last() == '\n' {
        complete_lines(t.drop_last()).push(pending_line(t.drop_last()))
    } else {
        complete_lines(t.drop_last())
    }
}

/// The lines of `t`: those a newline ends, then the unterminated rest if it is
/// not empty.
pub open spec fn lines_of(t: Seq<char>) -> Seq<Seq<char>> {
    if pending_line(t).len() == 0 {
        complete_lines(t)
    } else {
        complete_lines(t).push(pending_line(t))
    }
}

/// The rows that a file holding `t` is read into: each line with its trailing
/// whitespace trimmed, or a single empty row when `t` has no line at all.
pub open spec fn rows_of_text(t: Seq<char>) -> Seq<Seq<char>> {
    let ls = lines_of(t).map_values(|l: Seq<char>| trim_end(l));
    if ls.len() == 0 {
        seq![Seq::<char>::empty()]
    } else {
        ls
    }
}

/// The text written for `rows`: each row followed by a newline, in order.
pub open spec fn text_of_rows(rows: Seq<Seq<char>>) -> Seq<char>
    decreases rows.len(),
{
    if rows.len() == 0 {
        Seq::empty()
    } else {
        text_of_rows(rows.drop_last()) + rows.last().push('\n')
    }
}

/// A row that reading back its written line gives unchanged: it holds no
/// newline and does not end in whitespace.
pub open spec fn no_trailing_space(r: Seq<char>) -> bool {
    &&& forall|i: int| 0 <= i < r.len() ==> r[i] != '\n'
    &&& r.len() > 0 ==> !is_whitespace_char(r.last())
}

pub open spec fn rows_view(rows: Seq<RowBuffer>) -> Seq<Seq<char>> {
    rows.map_values(|r: RowBuffer| r@)
}

pub fn is_whitespace(c: char) -> (r: bool)
    ensures
        r == is_whitespace_char(c),
{
    ('\u{9}' <= c && c <= '\u{d}') || c == ' ' || c == '\u{85}' || c == '\u{a0}'
        || c == '\u{1680}' || ('\u{2000}' <= c && c <= '\u{200a}') || c == '\u{2028}'
        || c == '\u{2029}' || c == '\u{202f}' || c == '\u{205f}' || c == '\u{3000}'
}

fn trim_end_in_place(line: &mut Vec<char>)
    ensures
        final(line)@ == trim_end(old(line)@),
{
    while line.len() > 0 && is_whitespace(line[line.len() - 1])
        invariant
            trim_end(line@) == trim_end(old(line)@),
        decreases line@.len(),
    {
        let ghost before = line@;
        line.pop();
        assert(line@ =~= before.drop_last());
    }
}

/// Reads text into rows, as `rows_of_text` describes.
pub fn rows_from_text(text: &[char]) -> (r: Vec<RowBuffer>)
    ensures
        r@.len() >= 1,
        forall|i: int| 0 <= i < r@.len() ==> (#[trigger] r@[i]).wf(),
        rows_view(r@) == rows_of_text(text@),
{
    let mut rows: Vec<RowBuffer> = Vec::new();
    let mut cur: Vec<char> = Vec::new();
    let mut i: usize = 0;
    while i < text.len()
        invariant
            i <= text@.len(),
            cur@ == pending_line(text@.subrange(0, i as int)),
            forall|k: int| 0 <= k < rows@.len() ==> (#[trigger] rows@[k]).wf(),
            rows_view(rows@) == complete_lines(text@.subrange(0, i as int)).map_values(
                |l: Seq<char>| trim_end(l),
            ),
        decreases text@.len() - i,
    {
        let c = text[i];
        let ghost prefix = text@.subrange(0, i as int);
        assert(text@.subrange(0, i + 1).drop_last() =~= prefix);
        assert(text@.subrange(0, i + 1).last() == c);
        if c == '\n' {
            let ghost line = cur@;
            let ghost before = rows@;
            trim_end_in_place(&mut cur);
            rows.push(RowBuffer::new_from_vec(cur));
            cur = Vec::new();
            assert(complete_lines(text@.subrange(0, i + 1)) == complete_lines(prefix).push(line));
            assert(rows_view(rows@) =~= rows_view(before).push(trim_end(line)));
            assert(rows_view(rows@) =~= complete_lines(text@.subrange(0, i + 1)).map_values(
                |l: Seq<char>| trim_end(l),
            ));
            assert(cur@ =~= pending_line(text@.subrange(0, i + 1)));
        } else {
            cur.push(c);
            assert(rows_view(rows@) =~= complete_lines(text@.subrange(0, i + 1)).map_values(
                |l: Seq<char>| trim_end(l),
            ));
        }
        i = i + 1;
    }
    assert(text@.subrange(0, i as int) =~= text@);
    if cur.len() > 0 {
        let ghost line = cur@;
        let ghost before = rows@;
        trim_end_in_place(&mut cur);
        rows.push(RowBuffer::new_from_vec(cur));
        assert(rows_view(rows@) =~= rows_view(before).push(trim_end(line)));
        assert(rows_view(rows@) =~= lines_of(text@).map_values(|l: Seq<char>| trim_end(l)));
    } else {
        assert(rows_view(rows@) =~= lines_of(text@).map_values(|l: Seq<char>| trim_end(l)));
    }
    if rows.len() == 0 {
        rows.push(RowBuffer::new_empty());
        assert(rows_view(rows@) =~= rows_of_text(text@));
    }
    rows
}

/// Writes rows out as text, as `text_of_rows` describes.
pub fn text_from_rows(rows: &Vec<RowBuffer>) -> (r: Vec<char>)
    ensures
        r@ == text_of_rows(rows_view(rows@)),
{
    let mut out: Vec<char> = Vec::new();
    let mut i: usize = 0;
    while i < rows.len()
        invariant
            i <= rows@.len(),
            out@ == text_of_rows(rows_view(rows@.subrange(0, i as int))),
        decreases rows@.len() - i,
    {
        let row = rows[i].get_data();
        let ghost start = out@;
        let mut k: usize = 0;
        while k < row.len()
            invariant
                k <= row@.len(),
                out@ == start + row@.subrange(0, k as int),
            decreases row@.len() - k,
        {
            out.push(row[k]);
            k = k + 1;
            assert(out@ =~= start + row@.subrange(0, k as int));
        }
        out.push('\n');
        let ghost done = rows_view(rows@.subrange(0, i + 1));
        assert(done.drop_last() =~= rows_view(rows@.subrange(0, i as int)));
        assert(done.last() == rows@[i as int]@);
        assert(out@ =~= text_of_rows(done.drop_last()) + done.last().push('\n'));
        i = i + 1;
    }
    assert(rows@.subrange(0, i as int) =~= rows@);
    out
}

/// Appending characters that hold no newline adds to the last, unterminated
/// line and closes none.
proof fn lemma_extend_pending(a: Seq<char>, r: Seq<char>)
    requires
        forall|i: int| 0 <= i < r.len() ==> r[i] != '\n',
    ensures
        complete_lines(a + r) == complete_lines(a),
        pending_line(a + r) == pending_line(a) + r,
    decreases r.len(),
{
    if r.len() == 0 {
        assert(a + r =~= a);
        assert(pending_line(a) + r =~= pending_line(a));
    } else {
        let init = r.drop_last();
        lemma_extend_pending(a, init);
        assert((a + r).drop_last() =~= a + init);
        assert((a + r).last() == r.last());
        assert(pending_line(a) + r =~= (pending_line(a) + init).push(r.last()));
    }
}

/// The lines of the text written for newline-free rows are those rows.
proof fn lemma_lines_of_written_rows(rows: Seq<Seq<char>>)
    requires
        forall|k: int| 0 <= k < rows.len() ==> no_trailing_space(#[trigger] rows[k]),
    ensures
        complete_lines(text_of_rows(rows)) == rows,
        pending_line(text_of_rows(rows)) == Seq::<char>::empty(),
    decreases rows.len(),
{
    if rows.len() == 0 {
        assert(complete_lines(text_of_rows(rows)) =~= rows);
    } else {
        let init = rows.drop_last();
        let last = rows.last();
        assert forall|k: int| 0 <= k < init.len() implies no_trailing_space(#[trigger] init[k]) by {
            assert(init[k] == rows[k]);
        }
        lemma_lines_of_written_rows(init);
        let a = text_of_rows(init);
        assert(no_trailing_space(rows[rows.len() - 1]));
        lemma_extend_pending(a, last);
        let t = text_of_rows(rows);
        assert(t =~= (a + last).push('\n'));
        assert(t.drop_last() =~= a + last);
        assert(pending_line(a) + last =~= last);
        assert(complete_lines(t) =~= rows);
    }
}

/// Writing rows to a file and reading the file back gives the same rows, for
/// any non-empty sequence of rows that hold no newline and do not end in
/// whitespace.
pub proof fn lemma_round_trip(rows: Seq<Seq<char>>)
    requires
        rows.len() >= 1,
        forall|k: int| 0 <= k < rows.len() ==> no_trailing_space(#[trigger] rows[k]),
    ensures
        rows_of_text(text_of_rows(rows)) == rows,
{
    lemma_lines_of_written_rows(rows);
    let ls = lines_of(text_of_rows(rows));
    assert(ls == rows);
    assert forall|k: int| 0 <= k < rows.len() implies trim_end(#[trigger] rows[k]) == rows[k] by {
        assert(no_trailing_space(rows[k]));
    }
    assert(ls.map_values(|l: Seq<char>| trim_end(l)) =~= rows);
}

} // verus!
