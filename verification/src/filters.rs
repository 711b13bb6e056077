use vstd::prelude::*;

verus! {

/// Filtering one element further along a sequence.
pub proof fn lemma_filter_step<A>(s: Seq<A>, p: spec_fn(A) -> bool, k: int)
    requires
        0 <= k < s.len(),
    ensures
        s.take(k + 1).filter(p) == (if p(s[k]) {
            s.take(k).filter(p).push(s[k])
        } else {
            s.take(k).filter(p)
        }),
{
    reveal_with_fuel(Seq::filter, 1);
    assert(s.take(k + 1).drop_last() =~= s.take(k));
}

/// An element is in a filtered sequence exactly when it is in the sequence
/// and satisfies the predicate.
pub proof fn lemma_filter_contains_iff<A>(s: Seq<A>, p: spec_fn(A) -> bool, x: A)
    ensures
        s.filter(p).contains(x) <==> s.contains(x) && p(x),
    decreases s.len(),
{
    reveal_with_fuel(Seq::filter, 1);
    if s.len() > 0 {
        let d = s.drop_last();
        lemma_filter_contains_iff(d, p, x);
        assert(s =~= d.push(s.last()));
        if s.contains(x) && x != s.last() {
            let j = choose|j: int| 0 <= j < s.len() && s[j] == x;
            assert(d[j] == x);
        }
        if d.contains(x) {
            let j = choose|j: int| 0 <= j < d.len() && d[j] == x;
            assert(s[j] == x);
        }
        if p(s.last()) {
            let f = d.filter(p);
            assert(f.push(s.last())[f.len() as int] == s.last());
            if f.contains(x) {
                let j = choose|j: int| 0 <= j < f.len() && f[j] == x;
                assert(f.push(s.last())[j] == x);
            }
            if f.push(s.last()).contains(x) && x != s.last() {
                let j = choose|j: int| 0 <= j < f.len() + 1 && f.push(s.last())[j] == x;
                assert(f[j] == x);
            }
        }
    }
}

/// Filtering a sequence whose elements all pass gives the sequence back.
pub proof fn lemma_filter_all<A>(s: Seq<A>, p: spec_fn(A) -> bool)
    requires
        forall|i: int| 0 <= i < s.len() ==> p(#[trigger] s[i]),
    ensures
        s.filter(p) == s,
    decreases s.len(),
{
    reveal_with_fuel(Seq::filter, 1);
    if s.len() > 0 {
        let d = s.drop_last();
        assert forall|i: int| 0 <= i < d.len() implies p(#[trigger] d[i]) by {
            assert(d[i] == s[i]);
        }
        lemma_filter_all(d, p);
        assert(s =~= d.push(s.last()));
    }
}

/// Filtering keeps the order of the elements it keeps: any two of them
/// occur in the sequence in the same order.
pub proof fn lemma_filter_keeps_order<A>(s: Seq<A>, p: spec_fn(A) -> bool, i: int, j: int)
    requires
        0 <= i < j < s.filter(p).len(),
    ensures
        exists|a: int, b: int|
            0 <= a < b < s.len() && s[a] == s.filter(p)[i] && s[b] == s.filter(p)[j],
    decreases s.len(),
{
    reveal_with_fuel(Seq::filter, 1);
    let d = s.drop_last();
    let fd = d.filter(p);
    let f = s.filter(p);
    if j < fd.len() {
        lemma_filter_keeps_order(d, p, i, j);
        let (a, b) = choose|a: int, b: int|
            0 <= a < b < d.len() && d[a] == fd[i] && d[b] == fd[j];
        assert(f[i] == fd[i] && f[j] == fd[j]);
        assert(s[a] == d[a] && s[b] == d[b]);
    } else {
        assert(f =~= fd.push(s.last()));
        assert(fd.contains(fd[i]));
        lemma_filter_contains_iff(d, p, fd[i]);
        let a = choose|a: int| 0 <= a < d.len() && d[a] == fd[i];
        let b = s.len() - 1;
        assert(s[a] == d[a]);
        assert(s[b] == f[j]);
    }
}

} // verus!
