use vstd::prelude::*;

use crate::filters::{lemma_filter_contains_iff, lemma_filter_step};
use crate::primitives::Address;

verus! {

/// The addresses of a list, each taken by its view.
pub open spec fn views(s: Seq<Address>) -> Seq<Seq<char>> {
    s.map_values(|a: Address| a@)
}

/// Keeps the addresses other than `v`.
pub open spec fn differs_from(v: Seq<char>) -> spec_fn(Address) -> bool {
    |x: Address| x@ != v
}

/// An address is in the list exactly when some entry has its view.
pub proof fn lemma_views_contains(s: Seq<Address>, v: Seq<char>)
    ensures
        views(s).contains(v) <==> exists|i: int| 0 <= i < s.len() && s[i]@ == v,
{
    if views(s).contains(v) {
        let i = choose|i: int| 0 <= i < views(s).len() && views(s)[i] == v;
        assert(s[i]@ == v);
    }
    if exists|i: int| 0 <= i < s.len() && s[i]@ == v {
        let i = choose|i: int| 0 <= i < s.len() && s[i]@ == v;
        assert(views(s)[i] == v);
    }
}

/// Dropping the entries with view `v` drops exactly `v` from the views.
pub proof fn lemma_without_views(s: Seq<Address>, v: Seq<char>, w: Seq<char>)
    ensures
        views(s.filter(differs_from(v))).contains(w) <==> views(s).contains(w) && w != v,
{
    let f = s.filter(differs_from(v));
    lemma_views_contains(f, w);
    lemma_views_contains(s, w);
    if views(f).contains(w) {
        let i = choose|i: int| 0 <= i < f.len() && f[i]@ == w;
        assert(f.contains(f[i]));
        lemma_filter_contains_iff(s, differs_from(v), f[i]);
        let j = choose|j: int| 0 <= j < s.len() && s[j] == f[i];
        assert(s[j]@ == w);
    }
    if views(s).contains(w) && w != v {
        let j = choose|j: int| 0 <= j < s.len() && s[j]@ == w;
        assert(s.contains(s[j]));
        lemma_filter_contains_iff(s, differs_from(v), s[j]);
        let i = choose|i: int| 0 <= i < f.len() && f[i] == s[j];
        assert(f[i]@ == w);
    }
}

/// Dropping entries from a list whose views are distinct keeps them distinct.
pub proof fn lemma_without_distinct(s: Seq<Address>, v: Seq<char>)
    requires
        views(s).no_duplicates(),
    ensures
        views(s.filter(differs_from(v))).no_duplicates(),
    decreases s.len(),
{
    reveal_with_fuel(Seq::filter, 1);
    let p = differs_from(v);
    if s.len() > 0 {
        let d = s.drop_last();
        assert(views(d) =~= views(s).drop_last());
        lemma_without_distinct(d, v);
        let fd = d.filter(p);
        if p(s.last()) {
            let f = fd.push(s.last());
            assert(views(f) =~= views(fd).push(s.last()@));
            lemma_without_views(d, v, s.last()@);
            if views(d).contains(s.last()@) {
                let i = choose|i: int| 0 <= i < views(d).len() && views(d)[i] == s.last()@;
                assert(views(s)[i] == views(s)[s.len() - 1]);
            }
        }
    }
}

/// Whether `a` is in `list`.
pub fn contains_address(list: &Vec<Address>, a: &Address) -> (r: bool)
    ensures
        r == views(list@).contains(a@),
{
    let mut i: usize = 0;
    while i < list.len()
        invariant
            i <= list@.len(),
            forall|j: int| 0 <= j < i ==> list@[j]@ != a@,
        decreases list@.len() - i,
    {
        if list[i].same_as(a) {
            proof {
                lemma_views_contains(list@, a@);
            }
            return true;
        }
        i = i + 1;
    }
    proof {
        lemma_views_contains(list@, a@);
    }
    false
}

/// A copy of `list` without the entries equal to `a`, in the same order.
pub fn without_address(list: &Vec<Address>, a: &Address) -> (r: Vec<Address>)
    ensures
        r@ == list@.filter(differs_from(a@)),
{
    let ghost p = differs_from(a@);
    let mut r: Vec<Address> = Vec::new();
    let mut i: usize = 0;
    while i < list.len()
        invariant
            i <= list@.len(),
            p == differs_from(a@),
            r@ == list@.take(i as int).filter(p),
        decreases list@.len() - i,
    {
        proof {
            lemma_filter_step(list@, p, i as int);
        }
        if !list[i].same_as(a) {
            r.push(list[i].clone());
        }
        i = i + 1;
    }
    assert(list@.take(list@.len() as int) =~= list@);
    r
}

/// A copy of `list`.
pub fn copy_list(list: &Vec<Address>) -> (r: Vec<Address>)
    ensures
        r@ == list@,
{
    let mut r: Vec<Address> = Vec::new();
    let mut i: usize = 0;
    while i < list.len()
        invariant
            i <= list@.len(),
            r@ == list@.take(i as int),
        decreases list@.len() - i,
    {
        r.push(list[i].clone());
        i = i + 1;
        assert(r@ =~= list@.take(i as int));
    }
    assert(r@ =~= list@);
    r
}

} // verus!
