use vstd::prelude::*;

use crate::buffer::rows_view;
use crate::position::Position;
use crate::row::Row;

verus! {

/// `q` stands in `line` starting at column `j`.
pub open spec fn occurs_at(line: Seq<char>, q: Seq<char>, j: int) -> bool {
    0 <= j && j + q.len() <= line.len() && line.subrange(j, j + q.len()) == q
}

/// The first column from `j` on at which `q` stands in `line`.
pub open spec fn first_col_from(line: Seq<char>, q: Seq<char>, j: int) -> Option<nat>
    decreases line.len() + 1 - j,
{
    if j < 0 || j + q.len() > line.len() {
        None
    } else if occurs_at(line, q, j) {
        Some(j as nat)
    } else {
        first_col_from(line, q, j + 1)
    }
}

/// The first place, as (column, row), at which `q` stands in `rows` from row `i` on:
/// rows in order, and within a row the leftmost column.
pub open spec fn find_from(rows: Seq<Seq<char>>, q: Seq<char>, i: int) -> Option<(nat, nat)>
    decreases rows.len() - i,
{
    if i < 0 || i >= rows.len() {
        None
    } else {
        match first_col_from(rows[i], q, 0) {
            Some(j) => Some((j, i as nat)),
            None => find_from(rows, q, i + 1),
        }
    }
}

/// The first place, as (column, row), at which `q` stands in `rows`.
pub open spec fn find_spec(rows: Seq<Seq<char>>, q: Seq<char>) -> Option<(nat, nat)> {
    find_from(rows, q, 0)
}

/// What `first_col_from` finds is an occurrence, with none before it.
pub proof fn lemma_first_col_from(line: Seq<char>, q: Seq<char>, j: int)
    requires
        0 <= j,
    ensures
        match first_col_from(line, q, j) {
            Some(c) => j <= c && occurs_at(line, q, c as int) && forall|k: int|
                j <= k < c ==> !occurs_at(line, q, k),
            None => forall|k: int| j <= k ==> !occurs_at(line, q, k),
        },
    decreases line.len() + 1 - j,
{
    if j + q.len() <= line.len() && !occurs_at(line, q, j) {
        lemma_first_col_from(line, q, j + 1);
        assert forall|k: int| j <= k < j + 1 implies !occurs_at(line, q, k) by {}
    }
}

/// What `find_from` finds is an occurrence, in the first row that holds one, at the
/// leftmost column of that row; where it finds nothing, no row from `i` on holds one.
pub proof fn lemma_find_from(rows: Seq<Seq<char>>, q: Seq<char>, i: int)
    requires
        0 <= i,
    ensures
        match find_from(rows, q, i) {
            Some((c, r)) => i <= r < rows.len() && occurs_at(rows[r as int], q, c as int)
                && (forall|k: int| 0 <= k < c ==> !occurs_at(rows[r as int], q, k)) && (forall|
                r2: int,
                k: int,
            | i <= r2 < r ==> !occurs_at(rows[r2], q, k)),
            None => forall|r2: int, k: int| i <= r2 < rows.len() ==> !occurs_at(rows[r2], q, k),
        },
    decreases rows.len() - i,
{
    if i < rows.len() {
        lemma_first_col_from(rows[i], q, 0);
        lemma_find_from(rows, q, i + 1);
    }
}

/// Whether `q` stands in `line` starting at column `j`.
fn matches_at(line: &Vec<char>, q: &Vec<char>, j: usize) -> (r: bool)
    requires
        j + q@.len() <= line@.len(),
    ensures
        r == occurs_at(line@, q@, j as int),
{
    let mut k: usize = 0;
    while k < q.len()
        invariant
            j + q@.len() <= line@.len(),
            line@.len() == line.len(),
            k <= q@.len(),
            forall|m: int| 0 <= m < k ==> line@[j + m] == q@[m],
        decreases q@.len() - k,
    {
        if line[j + k] != q[k] {
            assert(line@.subrange(j as int, j + q@.len())[k as int] != q@[k as int]);
            return false;
        }
        k += 1;
    }
    assert(line@.subrange(j as int, j + q@.len()) =~= q@);
    true
}

/// The leftmost column at which `q` stands in `line`.
fn find_col(line: &Vec<char>, q: &Vec<char>) -> (r: Option<usize>)
    ensures
        r matches Some(c) ==> first_col_from(line@, q@, 0) == Some(c as nat),
        r is None ==> first_col_from(line@, q@, 0) is None,
{
    if q.len() > line.len() {
        return None;
    }
    let last = line.len() - q.len();
    let mut j: usize = 0;
    loop
        invariant
            last + q@.len() == line@.len(),
            j <= last,
            first_col_from(line@, q@, 0) == first_col_from(line@, q@, j as int),
        decreases last - j,
    {
        if matches_at(line, q, j) {
            return Some(j);
        }
        if j == last {
            return None;
        }
        j += 1;
    }
}

/// The first place at which `query` stands in `rows`: rows in order, and within a row the
/// leftmost column.
pub fn find_in_rows(rows: &Vec<Row>, query: &Vec<char>) -> (r: Option<Position>)
    ensures
        r matches Some(p) ==> find_spec(rows_view(rows@), query@) == Some(
            (p.x as nat, p.y as nat),
        ),
        r is None ==> find_spec(rows_view(rows@), query@) is None,
{
    let ghost v = rows_view(rows@);
    let mut i: usize = 0;
    while i < rows.len()
        invariant
            i <= rows@.len(),
            v == rows_view(rows@),
            find_spec(v, query@) == find_from(v, query@, i as int),
        decreases rows@.len() - i,
    {
        match find_col(rows[i].chars(), query) {
            Some(c) => {
                return Some(Position { x: c, y: i });
            },
            None => {},
        }
        i += 1;
    }
    None
}

} // verus!
