//! Lexicographic order on integer sequences, the order in which path keys compare.

use vstd::prelude::*;

verus! {

/// `a` comes strictly before `b` in lexicographic order (a proper prefix comes first).
pub open spec fn lex_lt(a: Seq<int>, b: Seq<int>) -> bool
    decreases a.len(),
{
    if a.len() == 0 {
        b.len() > 0
    } else if b.len() == 0 {
        false
    } else if a[0] < b[0] {
        true
    } else if a[0] > b[0] {
        false
    } else {
        lex_lt(a.drop_first(), b.drop_first())
    }
}

/// No sequence comes before itself.
pub proof fn lemma_lex_irreflexive(a: Seq<int>)
    ensures
        !lex_lt(a, a),
    decreases a.len(),
{
    if a.len() > 0 {
        lemma_lex_irreflexive(a.drop_first());
    }
}

/// The order is transitive.
pub proof fn lemma_lex_transitive(a: Seq<int>, b: Seq<int>, c: Seq<int>)
    requires
        lex_lt(a, b),
        lex_lt(b, c),
    ensures
        lex_lt(a, c),
    decreases a.len(),
{
    if a.len() > 0 && b.len() > 0 && c.len() > 0 && a[0] == b[0] && b[0] == c[0] {
        lemma_lex_transitive(a.drop_first(), b.drop_first(), c.drop_first());
    }
}

/// Two different sequences are ordered one way or the other.
pub proof fn lemma_lex_total(a: Seq<int>, b: Seq<int>)
    requires
        a != b,
    ensures
        lex_lt(a, b) || lex_lt(b, a),
    decreases a.len(),
{
    if a.len() > 0 && b.len() > 0 && a[0] == b[0] {
        if a.drop_first() == b.drop_first() {
            assert(a =~= seq![a[0]] + a.drop_first());
            assert(b =~= seq![b[0]] + b.drop_first());
        }
        lemma_lex_total(a.drop_first(), b.drop_first());
    } else if a.len() == 0 && b.len() == 0 {
        assert(a =~= b);
    }
}

/// No two sequences come before each other.
pub proof fn lemma_lex_asymmetric(a: Seq<int>, b: Seq<int>)
    requires
        lex_lt(a, b),
    ensures
        !lex_lt(b, a),
{
    if lex_lt(b, a) {
        lemma_lex_transitive(a, b, a);
        lemma_lex_irreflexive(a);
    }
}

/// The integers that a vector of codes stands for.
pub open spec fn codes(v: Seq<u64>) -> Seq<int> {
    v.map_values(|x: u64| x as int)
}

/// Whether `a` comes strictly before `b`.
pub fn codes_less(a: &Vec<u64>, b: &Vec<u64>) -> (r: bool)
    ensures
        r == lex_lt(codes(a@), codes(b@)),
{
    let mut i: usize = 0;
    assert(codes(a@).skip(0) == codes(a@));
    assert(codes(b@).skip(0) == codes(b@));
    while i < a.len() && i < b.len()
        invariant
            i <= a.len(),
            i <= b.len(),
            lex_lt(codes(a@), codes(b@)) == lex_lt(codes(a@).skip(i as int), codes(b@).skip(i as int)),
        decreases a.len() - i,
    {
        let x = a[i];
        let y = b[i];
        let ghost sa = codes(a@).skip(i as int);
        let ghost sb = codes(b@).skip(i as int);
        assert(sa[0] == x as int && sb[0] == y as int);
        if x < y {
            return true;
        }
        if x > y {
            return false;
        }
        assert(sa.drop_first() =~= codes(a@).skip(i + 1));
        assert(sb.drop_first() =~= codes(b@).skip(i + 1));
        i = i + 1;
    }
    a.len() - i == 0 && b.len() - i > 0
}

/// Whether `a` and `b` hold the same codes.
pub fn codes_equal(a: &Vec<u64>, b: &Vec<u64>) -> (r: bool)
    ensures
        r == (codes(a@) == codes(b@)),
{
    if a.len() != b.len() {
        assert(codes(a@).len() != codes(b@).len());
        return false;
    }
    let mut i: usize = 0;
    while i < a.len()
        invariant
            i <= a.len(),
            a.len() == b.len(),
            forall|j: int| 0 <= j < i ==> a@[j] == b@[j],
        decreases a.len() - i,
    {
        if a[i] != b[i] {
            assert(codes(a@)[i as int] != codes(b@)[i as int]);
            return false;
        }
        i = i + 1;
    }
    assert(codes(a@) =~= codes(b@));
    true
}

} // verus!
