//! Sort settings and the comparator they induce on index rows: lexicographic
//! for name and health, numeric for document count, size and rate, reversed
//! when the order is descending. `sort` reorders a row vector accordingly.

use vstd::prelude::*;

use crate::models::IndexRate;
use crate::view_types::{SortColumn, SortOrder};

verus! {

/// Lexicographic "less or equal" on character sequences, by code point.
/// A proper prefix precedes its extensions.
pub open spec fn chars_le(a: Seq<char>, b: Seq<char>) -> bool
    decreases a.len(),
{
    if a.len() == 0 {
        true
    } else if b.len() == 0 {
        false
    } else if (a[0] as u32) < (b[0] as u32) {
        true
    } else if (b[0] as u32) < (a[0] as u32) {
        false
    } else {
        chars_le(a.drop_first(), b.drop_first())
    }
}

/// Any two character sequences are comparable.
pub proof fn lemma_chars_le_total(a: Seq<char>, b: Seq<char>)
    ensures
        chars_le(a, b) || chars_le(b, a),
    decreases a.len(),
{
    if a.len() == 0 || b.len() == 0 {
    } else if (a[0] as u32) < (b[0] as u32) || (b[0] as u32) < (a[0] as u32) {
    } else {
        lemma_chars_le_total(a.drop_first(), b.drop_first());
    }
}

/// Lexicographic order is transitive.
pub proof fn lemma_chars_le_trans(a: Seq<char>, b: Seq<char>, c: Seq<char>)
    requires
        chars_le(a, b),
        chars_le(b, c),
    ensures
        chars_le(a, c),
    decreases a.len(),
{
    if a.len() == 0 {
    } else {
        // a is nonempty, so b and c are nonempty too.
        if (a[0] as u32) < (b[0] as u32) {
        } else if (b[0] as u32) < (c[0] as u32) {
        } else {
            lemma_chars_le_trans(a.drop_first(), b.drop_first(), c.drop_first());
        }
    }
}

/// The value of `chars_le` is unchanged by dropping a common prefix, where
/// "common" means the code points agree position by position.
proof fn lemma_chars_le_skip(a: Seq<char>, b: Seq<char>, i: int)
    requires
        0 <= i <= a.len(),
        i <= b.len(),
        forall|j: int| 0 <= j < i ==> (a[j] as u32) == (b[j] as u32),
    ensures
        chars_le(a, b) == chars_le(a.skip(i), b.skip(i)),
    decreases i,
{
    if i == 0 {
        assert(a.skip(0) =~= a);
        assert(b.skip(0) =~= b);
    } else {
        assert(chars_le(a, b) == chars_le(a.drop_first(), b.drop_first()));
        lemma_chars_le_skip(a.drop_first(), b.drop_first(), i - 1);
        assert(a.drop_first().skip(i - 1) =~= a.skip(i));
        assert(b.drop_first().skip(i - 1) =~= b.skip(i));
    }
}

/// Compares two string slices in the order of `chars_le`.
pub fn str_le(a: &str, b: &str) -> (r: bool)
    ensures
        r == chars_le(a@, b@),
{
    let alen = a.unicode_len();
    let blen = b.unicode_len();
    let mut i: usize = 0;
    while i < alen && i < blen
        invariant
            i <= alen,
            i <= blen,
            alen == a@.len(),
            blen == b@.len(),
            forall|j: int| 0 <= j < i ==> (a@[j] as u32) == (b@[j] as u32),
        decreases alen - i,
    {
        let ca = a.get_char(i);
        let cb = b.get_char(i);
        if (ca as u32) < (cb as u32) {
            proof {
                lemma_chars_le_skip(a@, b@, i as int);
            }
            return true;
        }
        if (cb as u32) < (ca as u32) {
            proof {
                lemma_chars_le_skip(a@, b@, i as int);
            }
            return false;
        }
        i += 1;
    }
    proof {
        let k: int = if alen <= blen { alen as int } else { blen as int };
        lemma_chars_le_skip(a@, b@, k);
    }
    alen <= blen
}

/// Key order for one column, before the direction is applied.
pub open spec fn key_le(col: SortColumn, a: IndexRate, b: IndexRate) -> bool {
    match col {
        SortColumn::Name => chars_le(a.name@, b.name@),
        SortColumn::DocCount => a.doc_count <= b.doc_count,
        SortColumn::Rate => a.rate_milli <= b.rate_milli,
        SortColumn::Size => a.size_bytes <= b.size_bytes,
        SortColumn::Health => chars_le(a.health@, b.health@),
    }
}

/// Row order used by `SortState::sort`: the key order of the active column,
/// reversed when the order is descending.
pub open spec fn row_le(col: SortColumn, ord: SortOrder, a: IndexRate, b: IndexRate) -> bool {
    match ord {
        SortOrder::Ascending => key_le(col, a, b),
        SortOrder::Descending => key_le(col, b, a),
    }
}

/// The row order is total.
pub proof fn lemma_row_le_total(col: SortColumn, ord: SortOrder, a: IndexRate, b: IndexRate)
    ensures
        row_le(col, ord, a, b) || row_le(col, ord, b, a),
{
    match col {
        SortColumn::Name => lemma_chars_le_total(a.name@, b.name@),
        SortColumn::Health => lemma_chars_le_total(a.health@, b.health@),
        _ => (),
    }
}

/// The row order is transitive.
pub proof fn lemma_row_le_trans(
    col: SortColumn,
    ord: SortOrder,
    a: IndexRate,
    b: IndexRate,
    c: IndexRate,
)
    requires
        row_le(col, ord, a, b),
        row_le(col, ord, b, c),
    ensures
        row_le(col, ord, a, c),
{
    match (col, ord) {
        (SortColumn::Name, SortOrder::Ascending) => lemma_chars_le_trans(a.name@, b.name@, c.name@),
        (SortColumn::Name, SortOrder::Descending) => lemma_chars_le_trans(
            c.name@,
            b.name@,
            a.name@,
        ),
        (SortColumn::Health, SortOrder::Ascending) => lemma_chars_le_trans(
            a.health@,
            b.health@,
            c.health@,
        ),
        (SortColumn::Health, SortOrder::Descending) => lemma_chars_le_trans(
            c.health@,
            b.health@,
            a.health@,
        ),
        _ => (),
    }
}

/// A row sequence sorted under the active column and order.
pub open spec fn sorted_rows(col: SortColumn, ord: SortOrder, s: Seq<IndexRate>) -> bool {
    forall|p: int, q: int| 0 <= p < q < s.len() ==> row_le(col, ord, s[p], s[q])
}

/// Stable insertion of `x` into a sorted row sequence: `x` lands after
/// every row less-or-equal to it, so rows with equal keys keep their
/// relative order.
pub open spec fn insert_row(
    col: SortColumn,
    ord: SortOrder,
    t: Seq<IndexRate>,
    x: IndexRate,
) -> Seq<IndexRate>
    decreases t.len(),
{
    if t.len() == 0 {
        seq![x]
    } else if row_le(col, ord, t.last(), x) {
        t.push(x)
    } else {
        insert_row(col, ord, t.drop_last(), x).push(t.last())
    }
}

/// The rows in stable sorted order: each row inserted in turn, left to
/// right, by `insert_row`.
pub open spec fn sort_rows_spec(col: SortColumn, ord: SortOrder, s: Seq<IndexRate>) -> Seq<
    IndexRate,
>
    decreases s.len(),
{
    if s.len() == 0 {
        Seq::empty()
    } else {
        insert_row(col, ord, sort_rows_spec(col, ord, s.drop_last()), s.last())
    }
}

/// In a sorted sequence, inserting before the first row that is not
/// less-or-equal to `x` is the stable insertion: the rows after that point
/// are all strictly greater than `x`.
proof fn lemma_insert_row_at_first_gt(
    col: SortColumn,
    ord: SortOrder,
    t: Seq<IndexRate>,
    x: IndexRate,
    j: int,
)
    requires
        sorted_rows(col, ord, t),
        0 <= j <= t.len(),
        forall|k: int| 0 <= k < j ==> row_le(col, ord, t[k], x),
        j < t.len() ==> !row_le(col, ord, t[j], x),
    ensures
        insert_row(col, ord, t, x) == t.insert(j, x),
    decreases t.len(),
{
    if t.len() == 0 {
        assert(t.insert(0, x) =~= seq![x]);
    } else if j == t.len() as int {
        assert(row_le(col, ord, t.last(), x));
        assert(t.insert(j, x) =~= t.push(x));
    } else {
        assert(!row_le(col, ord, t.last(), x)) by {
            if j < t.len() - 1 && row_le(col, ord, t.last(), x) {
                lemma_row_le_trans(col, ord, t[j], t.last(), x);
            }
        }
        let u = t.drop_last();
        assert(sorted_rows(col, ord, u)) by {
            assert(forall|p: int, q: int|
                0 <= p < q < u.len() ==> u[p] == t[p] && u[q] == t[q]);
        }
        assert(forall|k: int| 0 <= k < j ==> u[k] == t[k]);
        lemma_insert_row_at_first_gt(col, ord, u, x, j);
        assert(u.insert(j, x).push(t.last()) =~= t.insert(j, x));
    }
}

/// Compares two rows under the given column and order.
fn row_le_exec(col: SortColumn, ord: SortOrder, a: &IndexRate, b: &IndexRate) -> (r: bool)
    ensures
        r == row_le(col, ord, *a, *b),
{
    match ord {
        SortOrder::Ascending => key_le_exec(col, a, b),
        SortOrder::Descending => key_le_exec(col, b, a),
    }
}

/// Compares two rows by the key of one column.
fn key_le_exec(col: SortColumn, a: &IndexRate, b: &IndexRate) -> (r: bool)
    ensures
        r == key_le(col, *a, *b),
{
    match col {
        SortColumn::Name => str_le(a.name.as_str(), b.name.as_str()),
        SortColumn::DocCount => a.doc_count <= b.doc_count,
        SortColumn::Rate => a.rate_milli <= b.rate_milli,
        SortColumn::Size => a.size_bytes <= b.size_bytes,
        SortColumn::Health => str_le(a.health.as_str(), b.health.as_str()),
    }
}

/// The active sort configuration: a column and a direction.
#[derive(Debug, Clone, Copy, PartialEq, Eq, Structural)]
pub struct SortState {
    pub column: SortColumn,
    pub order: SortOrder,
}

impl Default for SortState {
    fn default() -> (r: Self)
        ensures
            r.column == SortColumn::Rate,
            r.order == SortOrder::Descending,
    {
        SortState { column: SortColumn::Rate, order: SortOrder::Descending }
    }
}

impl SortState {
    /// Advance the active column in the fixed cycle.
    pub fn next_column(&mut self)
        ensures
            final(self).column == old(self).column.spec_next(),
            final(self).order == old(self).order,
    {
        self.column = self.column.next();
    }

    /// Step the active column back in the fixed cycle.
    pub fn prev_column(&mut self)
        ensures
            final(self).column == old(self).column.spec_prev(),
            final(self).order == old(self).order,
    {
        self.column = self.column.prev();
    }

    /// Flip between ascending and descending.
    pub fn toggle_order(&mut self)
        ensures
            final(self).order == old(self).order.spec_toggle(),
            final(self).column == old(self).column,
    {
        self.order = self.order.toggle();
    }

    /// Sorts the rows in place under the active column and order: the
    /// result is exactly the stable sort `sort_rows_spec` of the input (the
    /// same rows as a multiset, in `row_le` order, with rows whose keys
    /// compare equal kept in their relative input order).
    pub fn sort(&self, v: &mut Vec<IndexRate>)
        ensures
            final(v)@.len() == old(v)@.len(),
            final(v)@.to_multiset() == old(v)@.to_multiset(),
            sorted_rows(self.column, self.order, final(v)@),
            final(v)@ == sort_rows_spec(self.column, self.order, old(v)@),
    {
        let col = self.column;
        let ord = self.order;
        let n = v.len();
        if n <= 1 {
            proof {
                if n == 0 {
                    assert(sort_rows_spec(col, ord, v@) =~= v@);
                } else {
                    assert(v@.drop_last() =~= Seq::<IndexRate>::empty());
                    assert(sort_rows_spec(col, ord, v@.drop_last())
                        =~= Seq::<IndexRate>::empty());
                    assert(sort_rows_spec(col, ord, v@) =~= seq![v@.last()]);
                    assert(v@ =~= seq![v@.last()]);
                }
            }
            return;
        }
        let mut i: usize = 1;
        proof {
            let p1 = old(v)@.subrange(0, 1);
            assert(p1.drop_last() =~= Seq::<IndexRate>::empty());
            assert(sort_rows_spec(col, ord, p1.drop_last()) =~= Seq::<IndexRate>::empty());
            assert(sort_rows_spec(col, ord, p1) =~= seq![old(v)@[0]]);
            assert(v@.subrange(0, 1) =~= seq![old(v)@[0]]);
            assert(v@.skip(1) =~= old(v)@.skip(1));
        }
        while i < n
            invariant
                1 <= i <= n,
                n == v@.len(),
                v@.len() == old(v)@.len(),
                v@.to_multiset() == old(v)@.to_multiset(),
                col == self.column,
                ord == self.order,
                forall|p: int, q: int| 0 <= p < q < i ==> row_le(col, ord, v@[p], v@[q]),
                v@.skip(i as int) == old(v)@.skip(i as int),
                v@.subrange(0, i as int) == sort_rows_spec(
                    col,
                    ord,
                    old(v)@.subrange(0, i as int),
                ),
            decreases n - i,
        {
            let mut j: usize = 0;
            while j < i && row_le_exec(col, ord, &v[j], &v[i])
                invariant
                    j <= i < v@.len(),
                    forall|p: int| 0 <= p < j ==> row_le(col, ord, v@[p], v@[i as int]),
                decreases i - j,
            {
                j += 1;
            }
            let ghost s = v@;
            let ghost ii = i as int;
            let ghost jj = j as int;
            let x = v.remove(i);
            v.insert(j, x);
            proof {
                assert(v@ =~= s.remove(ii).insert(jj, s[ii]));
                if jj < ii {
                    lemma_row_le_total(col, ord, s[jj], s[ii]);
                }
                assert forall|p: int, q: int| 0 <= p < q < ii + 1 implies row_le(
                    col,
                    ord,
                    v@[p],
                    v@[q],
                ) by {
                    let sp = if p < jj {
                        s[p]
                    } else if p == jj {
                        s[ii]
                    } else {
                        s[p - 1]
                    };
                    let sq = if q < jj {
                        s[q]
                    } else if q == jj {
                        s[ii]
                    } else {
                        s[q - 1]
                    };
                    assert(v@[p] == sp);
                    assert(v@[q] == sq);
                    if p == jj && q > jj {
                        // x goes before the rest of the old prefix: x precedes
                        // s[jj], which precedes every later prefix element.
                        if q - 1 > jj {
                            lemma_row_le_trans(col, ord, s[ii], s[jj], s[q - 1]);
                        }
                    }
                }
                assert(v@.to_multiset() =~= s.to_multiset()) by {
                    vstd::seq_lib::to_multiset_remove(s, ii);
                    vstd::seq_lib::to_multiset_insert(s.remove(ii), jj, s[ii]);
                    vstd::seq_lib::to_multiset_contains(s, s[ii]);
                    assert(s.contains(s[ii]));
                    broadcast use vstd::multiset::group_multiset_axioms;

                }
                // stability: the new prefix is the stable insertion of the
                // original row into the sorted prefix
                let t = s.subrange(0, ii);
                assert(s[ii] == old(v)@[ii]) by {
                    assert(s.skip(ii)[0] == s[ii]);
                    assert(old(v)@.skip(ii)[0] == old(v)@[ii]);
                }
                assert(sorted_rows(col, ord, t)) by {
                    assert(forall|p: int, q: int|
                        0 <= p < q < t.len() ==> t[p] == s[p] && t[q] == s[q]);
                }
                assert(forall|k: int| 0 <= k < jj ==> t[k] == s[k]);
                lemma_insert_row_at_first_gt(col, ord, t, s[ii], jj);
                assert(v@.subrange(0, ii + 1) =~= t.insert(jj, s[ii]));
                assert(old(v)@.subrange(0, ii + 1).drop_last() =~= old(v)@.subrange(0, ii));
                assert(old(v)@.subrange(0, ii + 1).last() == old(v)@[ii]);
                assert(v@.subrange(0, ii + 1) == sort_rows_spec(
                    col,
                    ord,
                    old(v)@.subrange(0, ii + 1),
                ));
                assert forall|k: int|
                    0 <= k < v@.skip(ii + 1).len() implies #[trigger] v@.skip(ii + 1)[k] == old(
                    v,
                )@.skip(ii + 1)[k] by {
                    assert(v@[ii + 1 + k] == s[ii + 1 + k]);
                    assert(s.skip(ii)[k + 1] == s[ii + 1 + k]);
                    assert(old(v)@.skip(ii)[k + 1] == old(v)@[ii + 1 + k]);
                }
                assert(v@.skip(ii + 1) =~= old(v)@.skip(ii + 1));
            }
            i += 1;
        }
        proof {
            assert(v@.subrange(0, n as int) =~= v@);
            assert(old(v)@.subrange(0, n as int) =~= old(v)@);
        }
    }
}

} // verus!
