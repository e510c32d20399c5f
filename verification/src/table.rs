//! A table from text codes to values, kept in code order with each code
//! present once.  Its view is a map from codes to values; writing a code
//! that is present replaces its value, as a hash map's `insert` does.
use crate::text::{lemma_text_lt_irreflexive, lemma_text_lt_transitive, text_eq, text_less, text_lt};
use vstd::prelude::*;

verus! {

/// Rows strictly ascending by code.
pub open spec fn rows_sorted<V>(rows: Seq<(Seq<char>, V)>) -> bool {
    forall|i: int, j: int| 0 <= i < j < rows.len() ==> text_lt(#[trigger] rows[i].0, #[trigger] rows[j].0)
}

/// The map that writing the rows in order gives.
pub open spec fn rows_map<V>(rows: Seq<(Seq<char>, V)>) -> Map<Seq<char>, V>
    decreases rows.len(),
{
    if rows.len() == 0 {
        Map::empty()
    } else {
        rows_map(rows.drop_last()).insert(rows.last().0, rows.last().1)
    }
}

/// For sorted rows, the map holds exactly the rows' codes, each with its
/// row's value, and has as many codes as there are rows.
pub proof fn lemma_rows_map<V>(rows: Seq<(Seq<char>, V)>)
    requires
        rows_sorted(rows),
    ensures
        forall|i: int| 0 <= i < rows.len() ==> #[trigger] rows_map(rows).contains_key(rows[i].0)
            && rows_map(rows)[rows[i].0] == rows[i].1,
        forall|k: Seq<char>| #[trigger]
            rows_map(rows).contains_key(k) ==> exists|i: int| 0 <= i < rows.len() && rows[i].0 == k,
        rows_map(rows).dom().finite(),
        rows_map(rows).dom().len() == rows.len(),
    decreases rows.len(),
{
    if rows.len() > 0 {
        let init = rows.drop_last();
        let last = rows.last();
        assert(rows_sorted(init)) by {
            assert forall|i: int, j: int| 0 <= i < j < init.len() implies text_lt(
                #[trigger] init[i].0,
                #[trigger] init[j].0,
            ) by {
                assert(init[i] == rows[i]);
                assert(init[j] == rows[j]);
            }
        }
        lemma_rows_map(init);
        let m = rows_map(init);
        assert(rows_map(rows) == m.insert(last.0, last.1));
        assert forall|i: int| 0 <= i < init.len() implies init[i].0 != last.0 by {
            assert(init[i] == rows[i]);
            assert(text_lt(rows[i].0, rows[rows.len() - 1].0));
            if init[i].0 == last.0 {
                lemma_text_lt_irreflexive(last.0);
            }
        }
        assert(!m.contains_key(last.0)) by {
            if m.contains_key(last.0) {
                let i = choose|i: int| 0 <= i < init.len() && init[i].0 == last.0;
                assert(init[i].0 != last.0);
            }
        }
        assert forall|i: int| 0 <= i < rows.len() implies #[trigger] rows_map(rows).contains_key(
            rows[i].0,
        ) && rows_map(rows)[rows[i].0] == rows[i].1 by {
            if i < rows.len() - 1 {
                assert(rows[i] == init[i]);
                assert(m.contains_key(init[i].0));
            }
        }
        assert forall|k: Seq<char>| #[trigger] rows_map(rows).contains_key(k) implies exists|i: int|
            0 <= i < rows.len() && rows[i].0 == k by {
            if k != last.0 {
                assert(m.contains_key(k));
                let i = choose|i: int| 0 <= i < init.len() && init[i].0 == k;
                assert(rows[i] == init[i]);
            } else {
                assert(rows[rows.len() - 1].0 == k);
            }
        }
        assert(rows_map(rows).dom() == m.dom().insert(last.0));
    } else {
        assert(rows_map(rows).dom() =~= Set::empty());
    }
}

/// A table from codes to values.
pub struct CodeTable<V> {
    rows: Vec<(String, V)>,
}

impl<V> CodeTable<V> {
    /// The rows, codes taken by their text.
    pub closed spec fn rows(self) -> Seq<(Seq<char>, V)> {
        self.rows@.map_values(|r: (String, V)| (r.0@, r.1))
    }

    /// The rows are in strictly ascending code order.
    pub open spec fn wf(self) -> bool {
        rows_sorted(self.rows())
    }

    /// The table as a map from codes to values.
    pub open spec fn map(self) -> Map<Seq<char>, V> {
        rows_map(self.rows())
    }

    /// An empty table.
    pub fn new() -> (t: CodeTable<V>)
        ensures
            t.wf(),
            t.rows().len() == 0,
            t.map() == Map::<Seq<char>, V>::empty(),
    {
        let t = CodeTable { rows: Vec::new() };
        assert(t.rows() =~= Seq::empty());
        t
    }

    /// The number of codes.
    pub fn len(&self) -> (n: usize)
        requires
            self.wf(),
        ensures
            n == self.rows().len(),
            n == self.map().dom().len(),
    {
        proof {
            lemma_rows_map(self.rows());
        }
        self.rows.len()
    }

    /// The value of row `i`.
    pub fn value_at(&self, i: usize) -> (v: &V)
        requires
            i < self.rows().len(),
        ensures
            *v == self.rows()[i as int].1,
    {
        assert(self.rows()[i as int].1 == self.rows@[i as int].1);
        &self.rows[i].1
    }

    /// The position of a code, if present.
    fn position(&self, code: &str) -> (r: Option<usize>)
        requires
            self.wf(),
        ensures
            r matches Some(i) ==> i < self.rows().len() && self.rows()[i as int].0 == code@,
            r is None ==> !self.map().contains_key(code@),
    {
        proof {
            lemma_rows_map(self.rows());
        }
        let n = self.rows.len();
        let mut i: usize = 0;
        while i < n
            invariant
                n == self.rows().len(),
                i <= n,
                forall|j: int| 0 <= j < i ==> self.rows()[j].0 != code@,
            decreases n - i,
        {
            if text_eq(self.rows[i].0.as_str(), code) {
                return Some(i);
            }
            i = i + 1;
        }
        None
    }

    /// The value of a code, if present.
    pub fn get(&self, code: &str) -> (r: Option<&V>)
        requires
            self.wf(),
        ensures
            r is Some == self.map().contains_key(code@),
            r matches Some(v) ==> *v == self.map()[code@],
    {
        proof {
            lemma_rows_map(self.rows());
        }
        match self.position(code) {
            Some(i) => {
                assert(self.rows()[i as int].1 == self.rows@[i as int].1);
                assert(self.map().contains_key(self.rows()[i as int].0));
                assert(self.map()[code@] == self.rows()[i as int].1);
                Some(&self.rows[i].1)
            },
            None => None,
        }
    }

    /// Removes every code.
    pub fn clear(&mut self)
        ensures
            final(self).wf(),
            final(self).map() == Map::<Seq<char>, V>::empty(),
    {
        self.rows = Vec::new();
        assert(self.rows() =~= Seq::empty());
    }

    /// Writes `value` under `code`, replacing a value already there.
    pub fn insert(&mut self, code: String, value: V)
        requires
            old(self).wf(),
        ensures
            final(self).wf(),
            final(self).map() == old(self).map().insert(code@, value),
    {
        let ghost old_rows = self.rows();
        proof {
            lemma_rows_map(old_rows);
        }
        let n = self.rows.len();
        let mut i: usize = 0;
        while i < n && text_less(self.rows[i].0.as_str(), code.as_str())
            invariant
                n == self.rows().len(),
                self.rows() == old_rows,
                i <= n,
                forall|j: int| 0 <= j < i ==> text_lt(old_rows[j].0, code@),
            decreases n - i,
        {
            i = i + 1;
        }
        let ghost k = code@;
        if i < n && text_eq(self.rows[i].0.as_str(), code.as_str()) {
            self.rows.set(i, (code, value));
            let ghost new_rows = self.rows();
            assert(new_rows =~= old_rows.update(i as int, (k, value)));
            assert(rows_sorted(new_rows)) by {
                assert forall|a: int, b: int| 0 <= a < b < new_rows.len() implies text_lt(
                    #[trigger] new_rows[a].0,
                    #[trigger] new_rows[b].0,
                ) by {
                    assert(new_rows[a].0 == old_rows[a].0);
                    assert(new_rows[b].0 == old_rows[b].0);
                }
            }
            proof {
                lemma_map_update(old_rows, i as int, k, value);
            }
        } else {
            self.rows.insert(i, (code, value));
            let ghost new_rows = self.rows();
            assert(new_rows =~= old_rows.insert(i as int, (k, value)));
            assert(i < n ==> text_lt(k, old_rows[i as int].0)) by {
                if i < n {
                    crate::text::lemma_text_lt_total(old_rows[i as int].0, k);
                    if text_lt(old_rows[i as int].0, k) {
                    }
                }
            }
            assert(rows_sorted(new_rows)) by {
                assert forall|a: int, b: int| 0 <= a < b < new_rows.len() implies text_lt(
                    #[trigger] new_rows[a].0,
                    #[trigger] new_rows[b].0,
                ) by {
                    if b < i {
                        assert(new_rows[a] == old_rows[a]);
                        assert(new_rows[b] == old_rows[b]);
                    } else if b == i {
                        assert(new_rows[a] == old_rows[a]);
                    } else if a == i {
                        assert(new_rows[b] == old_rows[b - 1]);
                        if b - 1 > i {
                            lemma_text_lt_transitive(k, old_rows[i as int].0, old_rows[b - 1].0);
                        }
                    } else if a < i {
                        assert(new_rows[a] == old_rows[a]);
                        assert(new_rows[b] == old_rows[b - 1]);
                    } else {
                        assert(new_rows[a] == old_rows[a - 1]);
                        assert(new_rows[b] == old_rows[b - 1]);
                    }
                }
            }
            proof {
                assert forall|j: int| 0 <= j < old_rows.len() implies old_rows[j].0 != k by {
                    if j < i {
                        if old_rows[j].0 == k {
                            lemma_text_lt_irreflexive(k);
                        }
                    } else {
                        if old_rows[j].0 == k {
                            if j > i {
                                lemma_text_lt_transitive(k, old_rows[i as int].0, old_rows[j].0);
                            }
                            lemma_text_lt_irreflexive(k);
                        }
                    }
                }
                lemma_map_insert(old_rows, i as int, k, value);
            }
        }
    }
}

/// Codes of different rows of sorted rows differ.
proof fn lemma_sorted_distinct<V>(rows: Seq<(Seq<char>, V)>, i: int, j: int)
    requires
        rows_sorted(rows),
        0 <= i < rows.len(),
        0 <= j < rows.len(),
        i != j,
    ensures
        rows[i].0 != rows[j].0,
{
    if rows[i].0 == rows[j].0 {
        if i < j {
            assert(text_lt(rows[i].0, rows[j].0));
        } else {
            assert(text_lt(rows[j].0, rows[i].0));
        }
        lemma_text_lt_irreflexive(rows[i].0);
    }
}

/// Overwriting the value of a present code writes it in the map.
proof fn lemma_map_update<V>(rows: Seq<(Seq<char>, V)>, i: int, k: Seq<char>, v: V)
    requires
        rows_sorted(rows),
        0 <= i < rows.len(),
        rows[i].0 == k,
        rows_sorted(rows.update(i, (k, v))),
    ensures
        rows_map(rows.update(i, (k, v))) == rows_map(rows).insert(k, v),
{
    let new_rows = rows.update(i, (k, v));
    lemma_rows_map(rows);
    lemma_rows_map(new_rows);
    let a = rows_map(new_rows);
    let b = rows_map(rows).insert(k, v);
    assert forall|c: Seq<char>| #[trigger] a.contains_key(c) <==> b.contains_key(c) by {
        if a.contains_key(c) {
            let j = choose|j: int| 0 <= j < new_rows.len() && new_rows[j].0 == c;
            assert(new_rows[j].0 == rows[j].0);
            assert(rows_map(rows).contains_key(rows[j].0));
        }
        if b.contains_key(c) && c != k {
            let j = choose|j: int| 0 <= j < rows.len() && rows[j].0 == c;
            assert(new_rows[j].0 == rows[j].0);
            assert(a.contains_key(new_rows[j].0));
        }
        if c == k {
            assert(a.contains_key(new_rows[i].0));
        }
    }
    assert forall|c: Seq<char>| a.contains_key(c) implies #[trigger] a[c] == b[c] by {
        let j = choose|j: int| 0 <= j < new_rows.len() && new_rows[j].0 == c;
        if j != i {
            assert(new_rows[j] == rows[j]);
            lemma_sorted_distinct(rows, i, j);
        }
    }
    assert(a =~= b);
}

/// Putting a row with a fresh code into sorted rows writes it in the map.
proof fn lemma_map_insert<V>(rows: Seq<(Seq<char>, V)>, i: int, k: Seq<char>, v: V)
    requires
        rows_sorted(rows),
        0 <= i <= rows.len(),
        forall|j: int| 0 <= j < rows.len() ==> rows[j].0 != k,
        rows_sorted(rows.insert(i, (k, v))),
    ensures
        rows_map(rows.insert(i, (k, v))) == rows_map(rows).insert(k, v),
{
    let new_rows = rows.insert(i, (k, v));
    lemma_rows_map(rows);
    lemma_rows_map(new_rows);
    let a = rows_map(new_rows);
    let b = rows_map(rows).insert(k, v);
    assert forall|c: Seq<char>| #[trigger] a.contains_key(c) <==> b.contains_key(c) by {
        if a.contains_key(c) && c != k {
            let j = choose|j: int| 0 <= j < new_rows.len() && new_rows[j].0 == c;
            if j < i {
                assert(new_rows[j] == rows[j]);
                assert(rows_map(rows).contains_key(rows[j].0));
            } else if j > i {
                assert(new_rows[j] == rows[j - 1]);
                assert(rows_map(rows).contains_key(rows[j - 1].0));
            }
        }
        if b.contains_key(c) && c != k {
            let j = choose|j: int| 0 <= j < rows.len() && rows[j].0 == c;
            if j < i {
                assert(new_rows[j] == rows[j]);
                assert(a.contains_key(new_rows[j].0));
            } else {
                assert(new_rows[j + 1] == rows[j]);
                assert(a.contains_key(new_rows[j + 1].0));
            }
        }
        if c == k {
            assert(new_rows[i] == (k, v));
            assert(a.contains_key(new_rows[i].0));
        }
    }
    assert forall|c: Seq<char>| a.contains_key(c) implies #[trigger] a[c] == b[c] by {
        let j = choose|j: int| 0 <= j < new_rows.len() && new_rows[j].0 == c;
        if j < i {
            assert(new_rows[j] == rows[j]);
        } else if j > i {
            assert(new_rows[j] == rows[j - 1]);
        } else {
            assert(new_rows[j] == (k, v));
        }
    }
    assert(a =~= b);
}


/// The map that writing `items` in order under their codes gives, as
/// collecting them into a hash map does.
pub open spec fn index_by<V>(items: Seq<V>, code: spec_fn(V) -> Seq<char>) -> Map<Seq<char>, V>
    decreases items.len(),
{
    if items.len() == 0 {
        Map::empty()
    } else {
        index_by(items.drop_last(), code).insert(code(items.last()), items.last())
    }
}

/// Indexing keeps every code that occurs, and for each the last item that
/// carries it.
pub proof fn lemma_index_by_last<V>(items: Seq<V>, code: spec_fn(V) -> Seq<char>, j: int)
    requires
        0 <= j < items.len(),
        forall|l: int| j < l < items.len() ==> code(#[trigger] items[l]) != code(items[j]),
    ensures
        index_by(items, code).contains_key(code(items[j])),
        index_by(items, code)[code(items[j])] == items[j],
    decreases items.len(),
{
    if j < items.len() - 1 {
        let init = items.drop_last();
        assert forall|l: int| j < l < init.len() implies code(#[trigger] init[l]) != code(init[j]) by {
            assert(init[l] == items[l]);
        }
        lemma_index_by_last(init, code, j);
        assert(init[j] == items[j]);
        assert(code(items[items.len() - 1]) != code(items[j]));
    }
}

/// Indexing keeps no code that no item carries.
pub proof fn lemma_index_by_codes<V>(items: Seq<V>, code: spec_fn(V) -> Seq<char>, k: Seq<char>)
    requires
        index_by(items, code).contains_key(k),
    ensures
        exists|j: int| 0 <= j < items.len() && code(#[trigger] items[j]) == k,
    decreases items.len(),
{
    if items.len() > 0 && code(items.last()) != k {
        let init = items.drop_last();
        lemma_index_by_codes(init, code, k);
        let j = choose|j: int| 0 <= j < init.len() && code(#[trigger] init[j]) == k;
        assert(items[j] == init[j]);
    } else if items.len() > 0 {
        assert(code(items[items.len() - 1]) == k);
    }
}

/// `index_by` over one more item writes that item.
pub proof fn lemma_index_by_step<V>(items: Seq<V>, code: spec_fn(V) -> Seq<char>, i: int)
    requires
        0 <= i < items.len(),
    ensures
        index_by(items.take(i + 1), code) == index_by(items.take(i), code).insert(code(items[i]), items[i]),
{
    assert(items.take(i + 1).drop_last() =~= items.take(i));
}

} // verus!
