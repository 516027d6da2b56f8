//! The product catalog: records kept in insertion order, looked up by name.
use vstd::prelude::*;

use crate::name_match::{
    eq_ignore_ascii_case, is_case_variant, lemma_case_variant_matches, names_match,
};
use vstd::utf8::is_ascii_chars;
use crate::weight::Weight;

verus! {

/// What a product record holds, as mathematical values.
pub struct ProductModel {
    pub name: Seq<char>,
    pub weight: u32,
    pub unit: Seq<char>,
}

/// One product: its name (the lookup key), its weight and the unit of that
/// weight.
#[derive(Debug)]
pub struct Product {
    pub name: String,
    pub weight: Weight,
    pub unit: String,
}

impl View for Product {
    type V = ProductModel;

    open spec fn view(&self) -> ProductModel {
        ProductModel { name: self.name@, weight: self.weight@, unit: self.unit@ }
    }
}

/// The models of a sequence of products, in the same order.
pub open spec fn models(ps: Seq<Product>) -> Seq<ProductModel> {
    ps.map_values(|p: Product| p@)
}

/// The first record of `s` whose name matches `q`, if any.
pub open spec fn lookup_spec(s: Seq<ProductModel>, q: Seq<char>) -> Option<ProductModel>
    decreases s.len(),
{
    if s.len() == 0 {
        None
    } else if names_match(s[0].name, q) {
        Some(s[0])
    } else {
        lookup_spec(s.drop_first(), q)
    }
}

/// What a lookup hands back for the record `m`, or for no record.
pub open spec fn answers(r: Option<(Weight, String)>, m: Option<ProductModel>) -> bool {
    match m {
        None => r is None,
        Some(m) => r matches Some((w, u)) && w@ == m.weight && u@ == m.unit,
    }
}

/// When no record before `i` matches `q`, the lookup over `s` is the lookup
/// over what follows those records.
proof fn lemma_lookup_skip(s: Seq<ProductModel>, q: Seq<char>, i: int)
    requires
        0 <= i <= s.len(),
        forall|j: int| 0 <= j < i ==> !names_match(#[trigger] s[j].name, q),
    ensures
        lookup_spec(s, q) == lookup_spec(s.skip(i), q),
    decreases i,
{
    if i > 0 {
        lemma_lookup_skip(s, q, i - 1);
        assert(s.skip(i - 1).drop_first() =~= s.skip(i));
        assert(s.skip(i - 1)[0] == s[i - 1]);
    } else {
        assert(s.skip(0) =~= s);
    }
}

/// Searches `products` in order for the first one whose name matches
/// `search_name` up to ASCII case, and returns its weight and a copy of its
/// unit.
pub fn get_product_info(products: &[Product], search_name: &str) -> (r: Option<(Weight, String)>)
    ensures
        answers(r, lookup_spec(models(products@), search_name@)),
{
    let ghost s = models(products@);
    let n = products.len();
    let mut i: usize = 0;
    while i < n
        invariant
            n == products@.len(),
            s == models(products@),
            i <= n,
            forall|j: int| 0 <= j < i ==> !names_match(#[trigger] s[j].name, search_name@),
        decreases n - i,
    {
        let p = &products[i];
        if eq_ignore_ascii_case(p.name.as_str(), search_name) {
            proof {
                lemma_lookup_skip(s, search_name@, i as int);
                assert(s.skip(i as int)[0] == s[i as int]);
            }
            let unit = p.unit.clone();
            return Some((p.weight, unit));
        }
        i = i + 1;
    }
    proof {
        lemma_lookup_skip(s, search_name@, n as int);
    }
    None
}

/// An ordered collection of products that only grows.
pub struct Catalog {
    products: Vec<Product>,
}

impl View for Catalog {
    type V = Seq<ProductModel>;

    closed spec fn view(&self) -> Seq<ProductModel> {
        models(self.products@)
    }
}

impl Catalog {
    /// An empty catalog.
    pub fn new() -> (r: Catalog)
        ensures
            r@ == Seq::<ProductModel>::empty(),
    {
        let r = Catalog { products: Vec::new() };
        assert(r@ =~= Seq::<ProductModel>::empty());
        r
    }

    /// Adds `product` after every record already held.
    pub fn append(&mut self, product: Product)
        ensures
            final(self)@ == old(self)@.push(product@),
    {
        self.products.push(product);
        assert(final(self)@ =~= old(self)@.push(product@));
    }

    /// The records in insertion order. The catalog is only read.
    pub fn iterate(&self) -> (r: &[Product])
        ensures
            models(r@) == self@,
    {
        self.products.as_slice()
    }

    /// The number of records.
    pub fn len(&self) -> (r: usize)
        ensures
            r == self@.len(),
    {
        self.products.len()
    }

    /// The weight and unit of the first record whose name matches `query` up
    /// to ASCII case, or `None` when no record does.
    pub fn lookup(&self, query: &str) -> (r: Option<(Weight, String)>)
        ensures
            answers(r, lookup_spec(self@, query@)),
    {
        get_product_info(self.products.as_slice(), query)
    }
}

/// The records of `s` followed by those of `ps`, appended one at a time in
/// the order of `ps`.
pub open spec fn append_all(s: Seq<ProductModel>, ps: Seq<ProductModel>) -> Seq<ProductModel>
    decreases ps.len(),
{
    if ps.len() == 0 {
        s
    } else {
        append_all(s.push(ps[0]), ps.drop_first())
    }
}

/// Appending records one at a time keeps them in the order they were
/// appended, after the records already held.
pub proof fn lemma_append_keeps_order(s: Seq<ProductModel>, ps: Seq<ProductModel>)
    ensures
        append_all(s, ps) == s + ps,
        append_all(Seq::empty(), ps) == ps,
    decreases ps.len(),
{
    if ps.len() > 0 {
        lemma_append_keeps_order(s.push(ps[0]), ps.drop_first());
        lemma_append_keeps_order(seq![ps[0]], ps.drop_first());
        assert(s.push(ps[0]) + ps.drop_first() =~= s + ps);
        assert(Seq::<ProductModel>::empty().push(ps[0]) + ps.drop_first() =~= ps);
    } else {
        assert(s + ps =~= s);
    }
}

/// Among the records whose names match `q`, a lookup returns the one
/// appended first.
pub proof fn lemma_first_match(s: Seq<ProductModel>, q: Seq<char>, i: int)
    requires
        0 <= i < s.len(),
        names_match(s[i].name, q),
        forall|j: int| 0 <= j < i ==> !names_match(#[trigger] s[j].name, q),
    ensures
        lookup_spec(s, q) == Some(s[i]),
{
    lemma_lookup_skip(s, q, i);
    assert(s.skip(i)[0] == s[i]);
}

/// A lookup finds a record whenever some record's name matches the query,
/// and what it finds has a matching name.
pub proof fn lemma_lookup_finds(s: Seq<ProductModel>, q: Seq<char>, k: int)
    requires
        0 <= k < s.len(),
        names_match(s[k].name, q),
    ensures
        lookup_spec(s, q) matches Some(m) && names_match(m.name, q),
    decreases s.len(),
{
    if !names_match(s[0].name, q) {
        assert(s.drop_first()[k - 1] == s[k]);
        lemma_lookup_finds(s.drop_first(), q, k - 1);
    }
}

/// A record appended under an ASCII name is found by every query that
/// differs from that name only in the case of its letters.
pub proof fn lemma_case_insensitive_lookup(
    s: Seq<ProductModel>,
    name: Seq<char>,
    query: Seq<char>,
    k: int,
)
    requires
        0 <= k < s.len(),
        s[k].name == name,
        is_ascii_chars(name),
        is_case_variant(name, query),
    ensures
        lookup_spec(s, query) matches Some(m) && names_match(m.name, query),
{
    lemma_case_variant_matches(name, query);
    lemma_lookup_finds(s, query, k);
}

/// A lookup in an empty catalog finds nothing.
pub proof fn lemma_empty_lookup(q: Seq<char>)
    ensures
        lookup_spec(Seq::empty(), q) is None,
{
}

} // verus!
