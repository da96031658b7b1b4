//! Orders: the order of texts, and sorting by a ranking.

use vstd::prelude::*;
use vstd::seq_lib::to_multiset_insert;

verus! {

/// The text `a` comes before the text `b` in the order of strings: at the
/// first place where they differ `a` has the lower character, or `a` ends
/// there and `b` goes on.
pub open spec fn text_before(a: Seq<char>, b: Seq<char>) -> bool
    decreases a.len(),
{
    if b.len() == 0 {
        false
    } else if a.len() == 0 {
        true
    } else if a[0] != b[0] {
        a[0] < b[0]
    } else {
        text_before(a.drop_first(), b.drop_first())
    }
}

/// No text comes before itself.
pub proof fn lemma_text_before_irreflexive(a: Seq<char>)
    ensures
        !text_before(a, a),
    decreases a.len(),
{
    if a.len() > 0 {
        lemma_text_before_irreflexive(a.drop_first());
    }
}

/// Of two texts at most one comes before the other.
pub proof fn lemma_text_before_asymmetric(a: Seq<char>, b: Seq<char>)
    ensures
        !(text_before(a, b) && text_before(b, a)),
    decreases a.len(),
{
    if a.len() > 0 && b.len() > 0 && a[0] == b[0] {
        lemma_text_before_asymmetric(a.drop_first(), b.drop_first());
    }
}

/// The order of texts is transitive.
pub proof fn lemma_text_before_transitive(a: Seq<char>, b: Seq<char>, c: Seq<char>)
    requires
        text_before(a, b),
        text_before(b, c),
    ensures
        text_before(a, c),
    decreases a.len(),
{
    if a.len() > 0 && b.len() > 0 && c.len() > 0 {
        if a[0] == b[0] && b[0] == c[0] {
            lemma_text_before_transitive(a.drop_first(), b.drop_first(), c.drop_first());
        }
    }
}

/// Of two different texts one comes before the other.
pub proof fn lemma_text_before_total(a: Seq<char>, b: Seq<char>)
    ensures
        a == b || text_before(a, b) || text_before(b, a),
    decreases a.len(),
{
    if a.len() > 0 && b.len() > 0 {
        if a[0] == b[0] {
            lemma_text_before_total(a.drop_first(), b.drop_first());
            if a.drop_first() == b.drop_first() {
                assert(a =~= seq![a[0]] + a.drop_first());
                assert(b =~= seq![b[0]] + b.drop_first());
            }
        }
    } else if a.len() == 0 && b.len() == 0 {
        assert(a =~= b);
    }
}

/// Whether the text `a` comes before the text `b` in the order of strings.
pub fn is_text_before(a: &Vec<char>, b: &Vec<char>) -> (r: bool)
    ensures
        r == text_before(a@, b@),
{
    let mut i: usize = 0;
    assert(a@.skip(0) =~= a@);
    assert(b@.skip(0) =~= b@);
    while i < a.len() && i < b.len()
        invariant
            i <= a.len(),
            i <= b.len(),
            text_before(a@, b@) == text_before(a@.skip(i as int), b@.skip(i as int)),
        decreases a.len() - i,
    {
        proof {
            assert(a@.skip(i as int)[0] == a@[i as int]);
            assert(b@.skip(i as int)[0] == b@[i as int]);
            assert(a@.skip(i as int).drop_first() =~= a@.skip(i + 1));
            assert(b@.skip(i as int).drop_first() =~= b@.skip(i + 1));
        }
        if a[i] != b[i] {
            return a[i] < b[i];
        }
        i += 1;
    }
    i < b.len()
}

/// Values with a ranking: a strict order that says which of two comes first.
pub trait Ranked: Sized {
    /// `self` comes strictly before `other`.
    spec fn precedes(&self, other: &Self) -> bool;

    /// Whether `self` comes strictly before `other`.
    fn comes_before(&self, other: &Self) -> (r: bool)
        ensures
            r == self.precedes(other),
    ;

    /// Of two values at most one precedes the other.
    proof fn lemma_asymmetric(a: &Self, b: &Self)
        ensures
            !(a.precedes(b) && b.precedes(a)),
    ;

    /// What does not come after a value does not come after anything that the
    /// value precedes or ties with.
    proof fn lemma_negatively_transitive(a: &Self, b: &Self, c: &Self)
        requires
            !b.precedes(a),
            !c.precedes(b),
        ensures
            !c.precedes(a),
    ;
}

/// No value of `s` precedes one that stands before it.
pub open spec fn ranked<T: Ranked>(s: Seq<T>) -> bool {
    forall|i: int, j: int| #![trigger s[i], s[j]] 0 <= i < j < s.len() ==> !s[j].precedes(&s[i])
}

/// The values of `v` in the order of their ranking: the same values, and
/// none of them before one that precedes it.
pub fn sort_ranked<T: Ranked>(v: Vec<T>) -> (out: Vec<T>)
    ensures
        ranked(out@),
        out@.to_multiset() == v@.to_multiset(),
        out@.len() == v@.len(),
{
    let mut rest = v;
    let mut out: Vec<T> = Vec::new();
    proof {
        assert(out@.to_multiset().add(rest@.to_multiset()) =~= v@.to_multiset()) by {
            broadcast use vstd::multiset::group_multiset_axioms;
            assert(out@.to_multiset() =~= Seq::<T>::empty().to_multiset());
            Seq::<T>::empty().to_multiset_ensures();
            assert(Seq::<T>::empty().to_multiset().len() == 0);
        }
    }
    while rest.len() > 0
        invariant
            ranked(out@),
            out@.to_multiset().add(rest@.to_multiset()) == v@.to_multiset(),
            out@.len() + rest@.len() == v@.len(),
        decreases rest.len(),
    {
        let ghost before = rest@;
        let ghost sorted = out@;
        let x = rest.pop().unwrap();
        // the values are taken from the end, so a value that ties with one
        // already placed stood before it: it goes in front
        let mut p: usize = 0;
        while p < out.len() && out[p].comes_before(&x)
            invariant
                p <= out.len(),
                out@ == sorted,
                forall|j: int| 0 <= j < p ==> (#[trigger] out@[j]).precedes(&x),
            decreases out.len() - p,
        {
            p += 1;
        }
        out.insert(p, x);
        proof {
            assert forall|i: int, j: int|
                #![trigger out@[i], out@[j]]
                0 <= i < j < out@.len() implies !out@[j].precedes(&out@[i]) by {
                if j == p {
                    // out[i] precedes x, so x does not precede out[i]
                    assert(out@[i] == sorted[i]);
                    T::lemma_asymmetric(&sorted[i], &x);
                } else if i == p {
                    // x stands before sorted[j - 1]; sorted[p] does not precede x
                    assert(out@[j] == sorted[j - 1]);
                    if j - 1 > p {
                        assert(!sorted[j - 1].precedes(&sorted[p as int]));
                        T::lemma_negatively_transitive(&x, &sorted[p as int], &sorted[j - 1]);
                    }
                } else if i < p && j > p {
                    assert(out@[i] == sorted[i]);
                    assert(out@[j] == sorted[j - 1]);
                } else if i < p && j < p {
                    assert(out@[i] == sorted[i]);
                    assert(out@[j] == sorted[j]);
                } else {
                    assert(out@[i] == sorted[i - 1]);
                    assert(out@[j] == sorted[j - 1]);
                }
            }
            broadcast use vstd::multiset::group_multiset_axioms;
            to_multiset_insert(sorted, p as int, x);
            assert(before =~= rest@.push(x));
            vstd::seq_lib::to_multiset_build(rest@, x);
            assert(out@.to_multiset().add(rest@.to_multiset()) =~= sorted.to_multiset().add(
                before.to_multiset(),
            ));
        }
    }
    proof {
        broadcast use vstd::multiset::group_multiset_axioms;
        rest@.to_multiset_ensures();
        assert(rest@.to_multiset().len() == 0);
        assert(out@.to_multiset() =~= out@.to_multiset().add(rest@.to_multiset()));
    }
    out
}

} // verus!
