use vstd::prelude::*;

use crate::row::Row;
use crate::text::{chars_of, push_char};

verus! {

/// The raw text of each row, in order.
pub open spec fn rows_view(rows: Seq<Row>) -> Seq<Seq<char>> {
    rows.map_values(|r: Row| r@)
}

/// The segments of `s` between line feeds, in order: one more than the line feeds in `s`.
pub open spec fn split_lines(s: Seq<char>) -> Seq<Seq<char>>
    decreases s.len(),
{
    if s.len() == 0 {
        seq![Seq::empty()]
    } else {
        let prev = split_lines(s.drop_last());
        if s.last() == '\n' {
            prev.push(Seq::empty())
        } else {
            prev.update(prev.len() - 1, prev.last().push(s.last()))
        }
    }
}

/// Each line followed by a line feed, in order.
pub open spec fn join_lines(lines: Seq<Seq<char>>) -> Seq<char>
    decreases lines.len(),
{
    if lines.len() == 0 {
        Seq::empty()
    } else {
        join_lines(lines.drop_last()) + lines.last().push('\n')
    }
}

/// Splitting always gives at least one segment.
pub proof fn lemma_split_nonempty(s: Seq<char>)
    ensures
        split_lines(s).len() >= 1,
    decreases s.len(),
{
    if s.len() > 0 {
        lemma_split_nonempty(s.drop_last());
    }
}

/// Loading a text and saving it at once gives the text back with one line feed added at
/// its end: a text that ended without a line feed gains one, and one that ended with a
/// line feed gains an empty last line.
pub proof fn lemma_save_after_load(s: Seq<char>)
    ensures
        join_lines(split_lines(s)) == s.push('\n'),
    decreases s.len(),
{
    if s.len() == 0 {
        let l = split_lines(s);
        assert(l.drop_last() =~= Seq::<Seq<char>>::empty());
        assert(join_lines(l) == join_lines(l.drop_last()) + l.last().push('\n'));
        assert(join_lines(l) =~= s.push('\n'));
    } else {
        let t = s.drop_last();
        let c = s.last();
        let prev = split_lines(t);
        lemma_save_after_load(t);
        lemma_split_nonempty(t);
        if c == '\n' {
            assert(prev.push(Seq::empty()).drop_last() =~= prev);
        } else {
            let cur = prev.update(prev.len() - 1, prev.last().push(c));
            assert(cur.drop_last() =~= prev.drop_last());
            let pd = join_lines(prev.drop_last());
            assert(join_lines(prev) == pd + prev.last().push('\n'));
            assert((pd + prev.last().push('\n')).drop_last() =~= pd + prev.last());
            assert(t =~= pd + prev.last());
            assert(join_lines(cur) == pd + cur.last().push('\n'));
            assert(join_lines(cur) =~= t.push(c).push('\n'));
        }
        assert(s =~= t.push(c));
    }
}

/// Splits `contents` into rows at its line feeds.
pub fn rows_from_text(contents: &str) -> (r: Vec<Row>)
    ensures
        rows_view(r@) == split_lines(contents@),
{
    let chars = chars_of(contents);
    let mut rows: Vec<Row> = Vec::new();
    let mut cur: Vec<char> = Vec::new();
    let mut i: usize = 0;
    while i < chars.len()
        invariant
            i <= chars@.len(),
            chars@ == contents@,
            rows_view(rows@).push(cur@) == split_lines(chars@.take(i as int)),
        decreases chars@.len() - i,
    {
        let c = chars[i];
        proof {
            let t = chars@.take(i as int);
            assert(chars@.take(i + 1).drop_last() =~= t);
            lemma_split_nonempty(t);
        }
        let ghost old_rows = rows_view(rows@);
        let ghost old_cur = cur@;
        if c == '\n' {
            let mut line: Vec<char> = Vec::new();
            std::mem::swap(&mut line, &mut cur);
            rows.push(Row::from_chars(line));
            assert(rows_view(rows@) =~= old_rows.push(old_cur));
        } else {
            cur.push(c);
            assert(rows_view(rows@).push(cur@) =~= old_rows.push(old_cur).update(
                old_rows.len() as int,
                old_cur.push(c),
            ));
        }
        i += 1;
    }
    assert(chars@.take(chars@.len() as int) =~= chars@);
    let ghost before = rows_view(rows@);
    let ghost last = cur@;
    rows.push(Row::from_chars(cur));
    assert(rows_view(rows@) =~= before.push(last));
    rows
}

/// Each row's raw text followed by a line feed, in order.
pub fn rows_to_text(rows: &Vec<Row>) -> (r: String)
    ensures
        r@ == join_lines(rows_view(rows@)),
{
    let mut out = String::new();
    let mut i: usize = 0;
    while i < rows.len()
        invariant
            i <= rows@.len(),
            out@ == join_lines(rows_view(rows@).take(i as int)),
        decreases rows@.len() - i,
    {
        let line = rows[i].chars();
        let ghost start = out@;
        let mut j: usize = 0;
        while j < line.len()
            invariant
                j <= line@.len(),
                out@ == start + line@.take(j as int),
            decreases line@.len() - j,
        {
            push_char(&mut out, line[j]);
            assert(line@.take(j + 1) =~= line@.take(j as int).push(line@[j as int]));
            j += 1;
        }
        push_char(&mut out, '\n');
        proof {
            let v = rows_view(rows@);
            assert(v.take(i + 1).drop_last() =~= v.take(i as int));
            assert(line@.take(line@.len() as int) =~= line@);
            assert(out@ =~= join_lines(v.take(i + 1)));
        }
        i += 1;
    }
    assert(rows_view(rows@).take(rows@.len() as int) =~= rows_view(rows@));
    out
}

} // verus!
