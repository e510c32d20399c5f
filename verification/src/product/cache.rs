//! The in-memory catalogue of products, product terms and tariff plans.
use crate::table::{index_by, lemma_index_by_step, lemma_rows_map, CodeTable};
use crate::text::{text_eq, text_lt};
use vstd::prelude::*;

verus! {

/// A product of the catalogue.
#[derive(Debug, Clone)]
pub struct ProductData {
    pub product_id: String,
    pub product_code: String,
    pub product_name: String,
    pub product_type: String,
    pub currency_code: String,
    pub status: String,
    pub created_at: i64,
}

/// The terms under which a product is offered.
#[derive(Debug, Clone)]
pub struct ProductTermsData {
    pub product_code: String,
    pub min_amount: String,
    pub max_amount: String,
    pub min_term_months: u32,
    pub max_term_months: u32,
    pub base_rate: String,
    pub early_termination_allowed: bool,
    pub early_termination_penalty_days: u32,
    pub capitalization_allowed: bool,
    pub top_up_allowed: bool,
    pub min_balance: String,
}

/// A tariff plan of a product.
#[derive(Debug, Clone)]
pub struct TariffPlanData {
    pub tariff_id: String,
    pub product_code: String,
    pub tariff_name: String,
    pub monthly_fee: String,
    pub free_transactions_per_month: u32,
    pub over_limit_fee: String,
    pub grace_period_days: u32,
    pub cashback_percent: String,
}

impl ProductData {
    /// A field-by-field copy.
    pub fn duplicate(&self) -> (r: ProductData)
        ensures
            r == *self,
    {
        ProductData {
            product_id: self.product_id.clone(),
            product_code: self.product_code.clone(),
            product_name: self.product_name.clone(),
            product_type: self.product_type.clone(),
            currency_code: self.currency_code.clone(),
            status: self.status.clone(),
            created_at: self.created_at,
        }
    }
}

impl ProductTermsData {
    /// A field-by-field copy.
    pub fn duplicate(&self) -> (r: ProductTermsData)
        ensures
            r == *self,
    {
        ProductTermsData {
            product_code: self.product_code.clone(),
            min_amount: self.min_amount.clone(),
            max_amount: self.max_amount.clone(),
            min_term_months: self.min_term_months,
            max_term_months: self.max_term_months,
            base_rate: self.base_rate.clone(),
            early_termination_allowed: self.early_termination_allowed,
            early_termination_penalty_days: self.early_termination_penalty_days,
            capitalization_allowed: self.capitalization_allowed,
            top_up_allowed: self.top_up_allowed,
            min_balance: self.min_balance.clone(),
        }
    }
}

impl TariffPlanData {
    /// A field-by-field copy.
    pub fn duplicate(&self) -> (r: TariffPlanData)
        ensures
            r == *self,
    {
        TariffPlanData {
            tariff_id: self.tariff_id.clone(),
            product_code: self.product_code.clone(),
            tariff_name: self.tariff_name.clone(),
            monthly_fee: self.monthly_fee.clone(),
            free_transactions_per_month: self.free_transactions_per_month,
            over_limit_fee: self.over_limit_fee.clone(),
            grace_period_days: self.grace_period_days,
            cashback_percent: self.cashback_percent.clone(),
        }
    }
}

/// A product's code.
pub open spec fn product_code_key() -> spec_fn(ProductData) -> Seq<char> {
    |p: ProductData| p.product_code@
}

/// A product's id.
pub open spec fn product_id_key() -> spec_fn(ProductData) -> Seq<char> {
    |p: ProductData| p.product_id@
}

/// The product code of a set of terms.
pub open spec fn terms_code_key() -> spec_fn(ProductTermsData) -> Seq<char> {
    |t: ProductTermsData| t.product_code@
}

/// A tariff plan's id.
pub open spec fn tariff_id_key() -> spec_fn(TariffPlanData) -> Seq<char> {
    |t: TariffPlanData| t.tariff_id@
}

/// Whether `list_products` shows a product for the given filters: an
/// empty filter matches every type or currency, and only active products
/// are shown.
pub open spec fn product_listed(p: ProductData, product_type: Seq<char>, currency: Seq<char>) -> bool {
    &&& (product_type.len() == 0 || p.product_type@ == product_type)
    &&& (currency.len() == 0 || p.currency_code@ == currency)
    &&& p.status@ == "active"@
}

/// Every value of a map sits under the code `code` gives it.
pub open spec fn map_coded<V>(m: Map<Seq<char>, V>, code: spec_fn(V) -> Seq<char>) -> bool {
    forall|k: Seq<char>| #[trigger] m.contains_key(k) ==> code(m[k]) == k
}

/// The product catalogue, looked up by product code or id; terms by
/// product code; tariff plans by id.
pub struct ProductCache {
    products_by_code: CodeTable<ProductData>,
    products_by_id: CodeTable<ProductData>,
    terms_by_code: CodeTable<ProductTermsData>,
    tariffs_by_id: CodeTable<TariffPlanData>,
}

impl ProductCache {
    /// Products by code.
    pub closed spec fn by_code(self) -> Map<Seq<char>, ProductData> {
        self.products_by_code.map()
    }

    /// Products by id.
    pub closed spec fn by_id(self) -> Map<Seq<char>, ProductData> {
        self.products_by_id.map()
    }

    /// Terms by product code.
    pub closed spec fn terms(self) -> Map<Seq<char>, ProductTermsData> {
        self.terms_by_code.map()
    }

    /// Tariff plans by id.
    pub closed spec fn tariffs(self) -> Map<Seq<char>, TariffPlanData> {
        self.tariffs_by_id.map()
    }

    /// The tables are ordered and each value sits under its own code.
    pub closed spec fn wf(self) -> bool {
        &&& self.products_by_code.wf()
        &&& self.products_by_id.wf()
        &&& self.terms_by_code.wf()
        &&& self.tariffs_by_id.wf()
        &&& map_coded(self.products_by_code.map(), product_code_key())
    }

    /// An empty cache.
    pub fn new() -> (c: ProductCache)
        ensures
            c.wf(),
            c.by_code() == Map::<Seq<char>, ProductData>::empty(),
            c.by_id() == Map::<Seq<char>, ProductData>::empty(),
            c.terms() == Map::<Seq<char>, ProductTermsData>::empty(),
            c.tariffs() == Map::<Seq<char>, TariffPlanData>::empty(),
    {
        ProductCache {
            products_by_code: CodeTable::new(),
            products_by_id: CodeTable::new(),
            terms_by_code: CodeTable::new(),
            tariffs_by_id: CodeTable::new(),
        }
    }

    /// The product with this code.
    pub fn get_product_by_code(&self, code: &str) -> (r: Option<&ProductData>)
        requires
            self.wf(),
        ensures
            r is Some == self.by_code().contains_key(code@),
            r matches Some(p) ==> *p == self.by_code()[code@] && p.product_code@ == code@,
    {
        self.products_by_code.get(code)
    }

    /// The product with this id.
    pub fn get_product_by_id(&self, id: &str) -> (r: Option<&ProductData>)
        requires
            self.wf(),
        ensures
            r is Some == self.by_id().contains_key(id@),
            r matches Some(p) ==> *p == self.by_id()[id@],
    {
        self.products_by_id.get(id)
    }

    /// The terms of the product with this code.
    pub fn get_terms(&self, code: &str) -> (r: Option<&ProductTermsData>)
        requires
            self.wf(),
        ensures
            r is Some == self.terms().contains_key(code@),
            r matches Some(t) ==> *t == self.terms()[code@],
    {
        self.terms_by_code.get(code)
    }

    /// The tariff plan with this id.
    pub fn get_tariff(&self, id: &str) -> (r: Option<&TariffPlanData>)
        requires
            self.wf(),
        ensures
            r is Some == self.tariffs().contains_key(id@),
            r matches Some(t) ==> *t == self.tariffs()[id@],
    {
        self.tariffs_by_id.get(id)
    }

    /// The number of products.
    pub fn products_count(&self) -> (n: usize)
        requires
            self.wf(),
        ensures
            n == self.by_code().dom().len(),
    {
        self.products_by_code.len()
    }

    /// The number of product terms.
    pub fn terms_count(&self) -> (n: usize)
        requires
            self.wf(),
        ensures
            n == self.terms().dom().len(),
    {
        self.terms_by_code.len()
    }

    /// The number of tariff plans.
    pub fn tariffs_count(&self) -> (n: usize)
        requires
            self.wf(),
        ensures
            n == self.tariffs().dom().len(),
    {
        self.tariffs_by_id.len()
    }

    /// The active products of a type and currency (an empty filter matches
    /// all), in product code order.
    pub fn list_products(&self, product_type: &str, currency: &str) -> (r: Vec<ProductData>)
        requires
            self.wf(),
        ensures
            forall|a: int, b: int|
                0 <= a < b < r@.len() ==> text_lt(
                    #[trigger] r@[a].product_code@,
                    #[trigger] r@[b].product_code@,
                ),
            forall|a: int|
                0 <= a < r@.len() ==> product_listed(#[trigger] r@[a], product_type@, currency@)
                    && self.by_code().contains_key(r@[a].product_code@) && self.by_code()[r@[a].product_code@]
                    == r@[a],
            forall|k: Seq<char>|
                #[trigger] self.by_code().contains_key(k) && product_listed(
                    self.by_code()[k],
                    product_type@,
                    currency@,
                ) ==> exists|a: int| 0 <= a < r@.len() && r@[a] == self.by_code()[k],
    {
        let ghost rows = self.products_by_code.rows();
        proof {
            lemma_rows_map(rows);
        }
        let mut out: Vec<ProductData> = Vec::new();
        let n = self.products_by_code.len();
        for i in 0..n
            invariant
                n == rows.len(),
                rows == self.products_by_code.rows(),
                self.wf(),
                forall|a: int|
                    0 <= a < out@.len() ==> exists|j: int|
                        0 <= j < i && #[trigger] out@[a] == rows[j].1 && product_listed(
                            rows[j].1,
                            product_type@,
                            currency@,
                        ),
                forall|j: int|
                    0 <= j < i && product_listed(#[trigger] rows[j].1, product_type@, currency@)
                        ==> exists|a: int| 0 <= a < out@.len() && out@[a] == rows[j].1,
                forall|a: int, b: int|
                    0 <= a < b < out@.len() ==> text_lt(
                        #[trigger] out@[a].product_code@,
                        #[trigger] out@[b].product_code@,
                    ),
        {
            proof {
                lemma_rows_map(rows);
            }
            let p = self.products_by_code.value_at(i);
            let shown = (product_type.is_empty() || text_eq(p.product_type.as_str(), product_type))
                && (currency.is_empty() || text_eq(p.currency_code.as_str(), currency)) && text_eq(
                p.status.as_str(),
                "active",
            );
            if shown {
                let ghost before = out@;
                out.push(p.duplicate());
                proof {
                    assert forall|a: int, b: int| 0 <= a < b < out@.len() implies text_lt(
                        #[trigger] out@[a].product_code@,
                        #[trigger] out@[b].product_code@,
                    ) by {
                        if b == out@.len() - 1 {
                            assert(out@[a] == before[a]);
                            let j = choose|j: int| 0 <= j < i && #[trigger] before[a] == rows[j].1
                                && product_listed(rows[j].1, product_type@, currency@);
                            assert(rows[j].0 == rows[j].1.product_code@) by {
                                assert(self.products_by_code.map().contains_key(rows[j].0));
                            }
                            assert(rows[i as int].0 == rows[i as int].1.product_code@) by {
                                assert(self.products_by_code.map().contains_key(rows[i as int].0));
                            }
                            assert(text_lt(rows[j].0, rows[i as int].0));
                        } else {
                            assert(out@[a] == before[a]);
                            assert(out@[b] == before[b]);
                        }
                    }
                    assert forall|a: int| 0 <= a < out@.len() implies exists|j: int|
                        0 <= j < i + 1 && #[trigger] out@[a] == rows[j].1 && product_listed(
                            rows[j].1,
                            product_type@,
                            currency@,
                        ) by {
                        if a < before.len() {
                            assert(out@[a] == before[a]);
                        } else {
                            assert(out@[a] == rows[i as int].1);
                        }
                    }
                    assert forall|j: int|
                        0 <= j < i + 1 && product_listed(#[trigger] rows[j].1, product_type@, currency@)
                            implies exists|a: int| 0 <= a < out@.len() && out@[a] == rows[j].1 by {
                        if j < i {
                            let a = choose|a: int| 0 <= a < before.len() && before[a] == rows[j].1;
                            assert(out@[a] == before[a]);
                        } else {
                            assert(out@[out@.len() - 1] == rows[j].1);
                        }
                    }
                }
            } else {
                proof {
                    reveal_strlit("active");
                }
            }
        }
        proof {
            let m = self.by_code();
            assert forall|a: int| 0 <= a < out@.len() implies product_listed(
                #[trigger] out@[a],
                product_type@,
                currency@,
            ) && m.contains_key(out@[a].product_code@) && m[out@[a].product_code@] == out@[a] by {
                let j = choose|j: int| 0 <= j < n && #[trigger] out@[a] == rows[j].1 && product_listed(
                    rows[j].1,
                    product_type@,
                    currency@,
                );
                assert(m.contains_key(rows[j].0));
                assert(rows[j].0 == rows[j].1.product_code@);
            }
            assert forall|k: Seq<char>| #[trigger]
                m.contains_key(k) && product_listed(m[k], product_type@, currency@) implies exists|a: int|
                0 <= a < out@.len() && out@[a] == m[k] by {
                let j = choose|j: int| 0 <= j < rows.len() && rows[j].0 == k;
                assert(m.contains_key(rows[j].0));
                assert(product_listed(rows[j].1, product_type@, currency@));
            }
        }
        out
    }

    /// Reloads the catalogue: every product is written under its code and
    /// under its id, terms under their product code and tariff plans under
    /// their id; a later item replaces an earlier one with the same key.
    pub fn replace(
        &mut self,
        products: Vec<ProductData>,
        terms: Vec<ProductTermsData>,
        tariffs: Vec<TariffPlanData>,
    )
        requires
            old(self).wf(),
        ensures
            final(self).wf(),
            final(self).by_code() == index_by(products@, product_code_key()),
            final(self).by_id() == index_by(products@, product_id_key()),
            final(self).terms() == index_by(terms@, terms_code_key()),
            final(self).tariffs() == index_by(tariffs@, tariff_id_key()),
    {
        self.products_by_code.clear();
        self.products_by_id.clear();
        proof {
            assert(products@.take(0) =~= Seq::<ProductData>::empty());
            assert(terms@.take(0) =~= Seq::<ProductTermsData>::empty());
            assert(tariffs@.take(0) =~= Seq::<TariffPlanData>::empty());
        }
        let n = products.len();
        for i in 0..n
            invariant
                n == products@.len(),
                self.products_by_code.wf(),
                self.products_by_id.wf(),
                self.products_by_code.map() == index_by(products@.take(i as int), product_code_key()),
                self.products_by_id.map() == index_by(products@.take(i as int), product_id_key()),
                map_coded(self.products_by_code.map(), product_code_key()),
        {
            let p = &products[i];
            self.products_by_code.insert(p.product_code.clone(), p.duplicate());
            self.products_by_id.insert(p.product_id.clone(), p.duplicate());
            proof {
                lemma_index_by_step(products@, product_code_key(), i as int);
                lemma_index_by_step(products@, product_id_key(), i as int);
            }
        }
        let mut by_terms = CodeTable::new();
        let nt = terms.len();
        for i in 0..nt
            invariant
                nt == terms@.len(),
                by_terms.wf(),
                by_terms.map() == index_by(terms@.take(i as int), terms_code_key()),
        {
            let t = &terms[i];
            by_terms.insert(t.product_code.clone(), t.duplicate());
            proof {
                lemma_index_by_step(terms@, terms_code_key(), i as int);
            }
        }
        let mut by_tariff = CodeTable::new();
        let nf = tariffs.len();
        for i in 0..nf
            invariant
                nf == tariffs@.len(),
                by_tariff.wf(),
                by_tariff.map() == index_by(tariffs@.take(i as int), tariff_id_key()),
        {
            let t = &tariffs[i];
            by_tariff.insert(t.tariff_id.clone(), t.duplicate());
            proof {
                lemma_index_by_step(tariffs@, tariff_id_key(), i as int);
            }
        }
        self.terms_by_code = by_terms;
        self.tariffs_by_id = by_tariff;
        proof {
            assert(products@.take(n as int) =~= products@);
            assert(terms@.take(nt as int) =~= terms@);
            assert(tariffs@.take(nf as int) =~= tariffs@);
        }
    }
}

} // verus!
