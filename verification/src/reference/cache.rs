//! The in-memory cache of currencies and operation types.
use crate::table::{index_by, lemma_index_by_step, lemma_rows_map, CodeTable};
use crate::text::text_lt;
use vstd::prelude::*;

verus! {

/// A currency.
#[derive(Debug, Clone)]
pub struct Currency {
    pub currency_code: String,
    pub numeric_code: u32,
    pub name: String,
    pub decimal_places: u32,
    pub is_base: bool,
}

/// A kind of account operation and the direction in which it moves money.
#[derive(Debug, Clone)]
pub struct OperationType {
    pub operation_code: String,
    pub name: String,
    pub direction: String,
}

impl Currency {
    /// A field-by-field copy.
    pub fn duplicate(&self) -> (r: Currency)
        ensures
            r == *self,
    {
        Currency {
            currency_code: self.currency_code.clone(),
            numeric_code: self.numeric_code,
            name: self.name.clone(),
            decimal_places: self.decimal_places,
            is_base: self.is_base,
        }
    }
}

impl OperationType {
    /// A field-by-field copy.
    pub fn duplicate(&self) -> (r: OperationType)
        ensures
            r == *self,
    {
        OperationType {
            operation_code: self.operation_code.clone(),
            name: self.name.clone(),
            direction: self.direction.clone(),
        }
    }
}

/// A currency's code.
pub open spec fn currency_key() -> spec_fn(Currency) -> Seq<char> {
    |c: Currency| c.currency_code@
}

/// An operation type's code.
pub open spec fn operation_key() -> spec_fn(OperationType) -> Seq<char> {
    |o: OperationType| o.operation_code@
}

/// Every value of a map sits under the code `code` gives it.
pub open spec fn keyed_by_own_code<V>(m: Map<Seq<char>, V>, code: spec_fn(V) -> Seq<char>) -> bool {
    forall|k: Seq<char>| #[trigger] m.contains_key(k) ==> code(m[k]) == k
}

/// The listing of a table's values in code order: ordered, each value the
/// one the map holds under its code, and every value present.
pub open spec fn lists_in_code_order<V>(
    r: Seq<V>,
    m: Map<Seq<char>, V>,
    code: spec_fn(V) -> Seq<char>,
) -> bool {
    &&& forall|a: int, b: int| 0 <= a < b < r.len() ==> text_lt(code(#[trigger] r[a]), code(#[trigger] r[b]))
    &&& forall|a: int| 0 <= a < r.len() ==> m.contains_key(code(#[trigger] r[a])) && m[code(r[a])] == r[a]
    &&& forall|k: Seq<char>| #[trigger] m.contains_key(k) ==> exists|a: int| 0 <= a < r.len() && r[a] == m[k]
}

/// Currencies by code and operation types by code.
pub struct ReferenceCache {
    currencies: CodeTable<Currency>,
    operation_types: CodeTable<OperationType>,
}

impl ReferenceCache {
    /// Currencies by code.
    pub closed spec fn currency_map(self) -> Map<Seq<char>, Currency> {
        self.currencies.map()
    }

    /// Operation types by code.
    pub closed spec fn operation_map(self) -> Map<Seq<char>, OperationType> {
        self.operation_types.map()
    }

    /// The tables are ordered and each value sits under its own code.
    pub closed spec fn wf(self) -> bool {
        &&& self.currencies.wf()
        &&& self.operation_types.wf()
        &&& keyed_by_own_code(self.currencies.map(), currency_key())
        &&& keyed_by_own_code(self.operation_types.map(), operation_key())
    }

    /// An empty cache.
    pub fn new() -> (c: ReferenceCache)
        ensures
            c.wf(),
            c.currency_map() == Map::<Seq<char>, Currency>::empty(),
            c.operation_map() == Map::<Seq<char>, OperationType>::empty(),
    {
        ReferenceCache { currencies: CodeTable::new(), operation_types: CodeTable::new() }
    }

    /// The currency with this code.
    pub fn get_currency(&self, code: &str) -> (r: Option<&Currency>)
        requires
            self.wf(),
        ensures
            r is Some == self.currency_map().contains_key(code@),
            r matches Some(c) ==> *c == self.currency_map()[code@] && c.currency_code@ == code@,
    {
        self.currencies.get(code)
    }

    /// The operation type with this code.
    pub fn get_operation_type(&self, code: &str) -> (r: Option<&OperationType>)
        requires
            self.wf(),
        ensures
            r is Some == self.operation_map().contains_key(code@),
            r matches Some(o) ==> *o == self.operation_map()[code@] && o.operation_code@ == code@,
    {
        self.operation_types.get(code)
    }

    /// Every currency, in code order.
    pub fn list_currencies(&self) -> (r: Vec<Currency>)
        requires
            self.wf(),
        ensures
            lists_in_code_order(r@, self.currency_map(), currency_key()),
            r@.len() == self.currency_map().dom().len(),
    {
        let ghost rows = self.currencies.rows();
        let ghost m = self.currencies.map();
        proof {
            lemma_rows_map(rows);
        }
        let mut out: Vec<Currency> = Vec::new();
        let n = self.currencies.len();
        for i in 0..n
            invariant
                n == rows.len(),
                rows == self.currencies.rows(),
                m == self.currencies.map(),
                self.wf(),
                out@.len() == i,
                forall|a: int| 0 <= a < i ==> #[trigger] out@[a] == rows[a].1,
        {
            out.push(self.currencies.value_at(i).duplicate());
        }
        proof {
            lemma_rows_map(rows);
            assert forall|a: int| 0 <= a < out@.len() implies #[trigger] out@[a].currency_code@ == rows[a].0 by {
                assert(m.contains_key(rows[a].0));
            }
            assert forall|a: int, b: int| 0 <= a < b < out@.len() implies text_lt(
                currency_key()(#[trigger] out@[a]),
                currency_key()(#[trigger] out@[b]),
            ) by {
                assert(out@[a].currency_code@ == rows[a].0);
                assert(out@[b].currency_code@ == rows[b].0);
            }
            assert forall|a: int| 0 <= a < out@.len() implies m.contains_key(currency_key()(#[trigger] out@[a]))
                && m[currency_key()(out@[a])] == out@[a] by {
                assert(out@[a].currency_code@ == rows[a].0);
                assert(m.contains_key(rows[a].0));
            }
            assert forall|k: Seq<char>| #[trigger] m.contains_key(k) implies exists|a: int|
                0 <= a < out@.len() && out@[a] == m[k] by {
                let j = choose|j: int| 0 <= j < rows.len() && rows[j].0 == k;
                assert(m.contains_key(rows[j].0));
                assert(out@[j] == rows[j].1);
            }
        }
        out
    }

    /// Every operation type, in code order.
    pub fn list_operation_types(&self) -> (r: Vec<OperationType>)
        requires
            self.wf(),
        ensures
            lists_in_code_order(r@, self.operation_map(), operation_key()),
            r@.len() == self.operation_map().dom().len(),
    {
        let ghost rows = self.operation_types.rows();
        let ghost m = self.operation_types.map();
        proof {
            lemma_rows_map(rows);
        }
        let mut out: Vec<OperationType> = Vec::new();
        let n = self.operation_types.len();
        for i in 0..n
            invariant
                n == rows.len(),
                rows == self.operation_types.rows(),
                m == self.operation_types.map(),
                self.wf(),
                out@.len() == i,
                forall|a: int| 0 <= a < i ==> #[trigger] out@[a] == rows[a].1,
        {
            out.push(self.operation_types.value_at(i).duplicate());
        }
        proof {
            lemma_rows_map(rows);
            assert forall|a: int| 0 <= a < out@.len() implies #[trigger] out@[a].operation_code@ == rows[a].0 by {
                assert(m.contains_key(rows[a].0));
            }
            assert forall|a: int, b: int| 0 <= a < b < out@.len() implies text_lt(
                operation_key()(#[trigger] out@[a]),
                operation_key()(#[trigger] out@[b]),
            ) by {
                assert(out@[a].operation_code@ == rows[a].0);
                assert(out@[b].operation_code@ == rows[b].0);
            }
            assert forall|a: int| 0 <= a < out@.len() implies m.contains_key(operation_key()(#[trigger] out@[a]))
                && m[operation_key()(out@[a])] == out@[a] by {
                assert(out@[a].operation_code@ == rows[a].0);
                assert(m.contains_key(rows[a].0));
            }
            assert forall|k: Seq<char>| #[trigger] m.contains_key(k) implies exists|a: int|
                0 <= a < out@.len() && out@[a] == m[k] by {
                let j = choose|j: int| 0 <= j < rows.len() && rows[j].0 == k;
                assert(m.contains_key(rows[j].0));
                assert(out@[j] == rows[j].1);
            }
        }
        out
    }

    /// Reloads the cache; a later item replaces an earlier one with the same
    /// code.
    pub fn replace(&mut self, currencies: Vec<Currency>, operation_types: Vec<OperationType>)
        requires
            old(self).wf(),
        ensures
            final(self).wf(),
            final(self).currency_map() == index_by(currencies@, currency_key()),
            final(self).operation_map() == index_by(operation_types@, operation_key()),
    {
        proof {
            assert(currencies@.take(0) =~= Seq::<Currency>::empty());
            assert(operation_types@.take(0) =~= Seq::<OperationType>::empty());
        }
        let mut by_code = CodeTable::new();
        let n = currencies.len();
        for i in 0..n
            invariant
                n == currencies@.len(),
                by_code.wf(),
                by_code.map() == index_by(currencies@.take(i as int), currency_key()),
                keyed_by_own_code(by_code.map(), currency_key()),
        {
            let c = &currencies[i];
            by_code.insert(c.currency_code.clone(), c.duplicate());
            proof {
                lemma_index_by_step(currencies@, currency_key(), i as int);
            }
        }
        let mut ops = CodeTable::new();
        let no = operation_types.len();
        for i in 0..no
            invariant
                no == operation_types@.len(),
                ops.wf(),
                ops.map() == index_by(operation_types@.take(i as int), operation_key()),
                keyed_by_own_code(ops.map(), operation_key()),
        {
            let o = &operation_types[i];
            ops.insert(o.operation_code.clone(), o.duplicate());
            proof {
                lemma_index_by_step(operation_types@, operation_key(), i as int);
            }
        }
        self.currencies = by_code;
        self.operation_types = ops;
        proof {
            assert(currencies@.take(n as int) =~= currencies@);
            assert(operation_types@.take(no as int) =~= operation_types@);
        }
    }

    /// The number of currencies.
    pub fn currencies_count(&self) -> (n: usize)
        requires
            self.wf(),
        ensures
            n == self.currency_map().dom().len(),
    {
        self.currencies.len()
    }

    /// The number of operation types.
    pub fn operation_types_count(&self) -> (n: usize)
        requires
            self.wf(),
        ensures
            n == self.operation_map().dom().len(),
    {
        self.operation_types.len()
    }
}

} // verus!
