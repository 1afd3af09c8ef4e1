//! Stable sorting with removal of repeated keys, as `sort` followed by `dedup` does
//! on a vector: each distinct key once, in increasing order, carried by its first
//! occurrence.

use vstd::prelude::*;
use crate::lexorder::{codes, codes_equal, codes_less, lex_lt, lemma_lex_irreflexive, lemma_lex_total, lemma_lex_transitive};

verus! {

/// The keys that a list of code vectors stands for.
pub open spec fn key_seq(keys: Seq<Vec<u64>>) -> Seq<Seq<int>> {
    keys.map_values(|k: Vec<u64>| codes(k@))
}

/// Keys at the listed positions strictly increase.
pub open spec fn keys_increase(order: Seq<usize>, ks: Seq<Seq<int>>) -> bool {
    forall|a: int, b: int|
        0 <= a < b < order.len() ==> lex_lt(#[trigger] ks[order[a] as int], #[trigger] ks[order[b] as int])
}

/// `key` is found at one of the listed positions.
pub open spec fn listed(order: Seq<usize>, ks: Seq<Seq<int>>, key: Seq<int>) -> bool {
    exists|j: int| 0 <= j < order.len() && #[trigger] ks[order[j] as int] == key
}

/// Every key among the first `n` is found at a listed position.
pub open spec fn keys_covered(order: Seq<usize>, ks: Seq<Seq<int>>, n: int) -> bool {
    forall|k: int| 0 <= k < n ==> listed(order, ks, #[trigger] ks[k])
}

/// Every listed position is among the first `n` and holds the first occurrence of its key.
pub open spec fn positions_first(order: Seq<usize>, ks: Seq<Seq<int>>, n: int) -> bool {
    forall|j: int|
        0 <= j < order.len() ==> {
            &&& #[trigger] order[j] < n
            &&& forall|k: int| 0 <= k < order[j] ==> #[trigger] ks[k] != ks[order[j] as int]
        }
}

/// `order` lists, by position, the first occurrence of each distinct key among the
/// first `n` of `ks`, in strictly increasing key order.
pub open spec fn first_occurrence_order(order: Seq<usize>, ks: Seq<Seq<int>>, n: int) -> bool {
    &&& keys_increase(order, ks)
    &&& keys_covered(order, ks, n)
    &&& positions_first(order, ks, n)
}

/// The key at position `i` falls between the listed keys before `j` and from `j` on.
spec fn fits_at(order: Seq<usize>, ks: Seq<Seq<int>>, i: int, j: int) -> bool {
    forall|x: int|
        0 <= x < order.len() ==> (x < j ==> lex_lt(#[trigger] ks[order[x] as int], ks[i])) && (x >= j
            ==> lex_lt(ks[i], ks[order[x] as int]))
}

proof fn lemma_repeat_keeps_order(order: Seq<usize>, ks: Seq<Seq<int>>, i: int, j: int)
    requires
        first_occurrence_order(order, ks, i),
        0 <= j < order.len(),
        ks[order[j] as int] == ks[i],
    ensures
        first_occurrence_order(order, ks, i + 1),
{
    assert forall|k: int| 0 <= k < i + 1 implies listed(order, ks, #[trigger] ks[k]) by {
        if k == i {
            assert(ks[order[j] as int] == ks[k]);
        }
    }
}

proof fn lemma_fits_at(old_order: Seq<usize>, ks: Seq<Seq<int>>, i: int, j: int)
    requires
        keys_increase(old_order, ks),
        0 <= j <= old_order.len(),
        forall|x: int| 0 <= x < j ==> lex_lt(#[trigger] ks[old_order[x] as int], ks[i]),
        j < old_order.len() ==> lex_lt(ks[i], ks[old_order[j] as int]),
    ensures
        fits_at(old_order, ks, i, j),
{
    assert forall|x: int| 0 <= x < old_order.len() implies (x < j ==> lex_lt(
        #[trigger] ks[old_order[x] as int],
        ks[i],
    )) && (x >= j ==> lex_lt(ks[i], ks[old_order[x] as int])) by {
        if x > j {
            lemma_lex_transitive(ks[i], ks[old_order[j] as int], ks[old_order[x] as int]);
        }
    }
}

proof fn lemma_insert_increase(old_order: Seq<usize>, ks: Seq<Seq<int>>, i: int, j: int)
    requires
        keys_increase(old_order, ks),
        0 <= i <= usize::MAX,
        0 <= j <= old_order.len(),
        fits_at(old_order, ks, i, j),
    ensures
        keys_increase(old_order.insert(j, i as usize), ks),
{
    let order = old_order.insert(j, i as usize);
    assert forall|a: int, b: int| 0 <= a < b < order.len() implies lex_lt(
        #[trigger] ks[order[a] as int],
        #[trigger] ks[order[b] as int],
    ) by {
        if a < j && b < j {
            assert(order[a] == old_order[a] && order[b] == old_order[b]);
        } else if a < j && b == j {
            assert(order[a] == old_order[a]);
        } else if a < j && b > j {
            assert(order[a] == old_order[a] && order[b] == old_order[b - 1]);
        } else if a == j {
            assert(order[b] == old_order[b - 1]);
        } else {
            assert(order[a] == old_order[a - 1] && order[b] == old_order[b - 1]);
        }
    }
}

proof fn lemma_insert_covered(old_order: Seq<usize>, ks: Seq<Seq<int>>, i: int, j: int)
    requires
        keys_covered(old_order, ks, i),
        0 <= i <= usize::MAX,
        0 <= j <= old_order.len(),
    ensures
        keys_covered(old_order.insert(j, i as usize), ks, i + 1),
{
    let order = old_order.insert(j, i as usize);
    assert forall|k: int| 0 <= k < i + 1 implies listed(order, ks, #[trigger] ks[k]) by {
        if k == i {
            assert(order[j] == i);
            assert(0 <= j < order.len() && ks[order[j] as int] == ks[k]);
        } else {
            assert(listed(old_order, ks, ks[k]));
            let w = choose|w: int| 0 <= w < old_order.len() && #[trigger] ks[old_order[w] as int] == ks[k];
            if w < j {
                assert(order[w] == old_order[w]);
                assert(0 <= w < order.len() && ks[order[w] as int] == ks[k]);
            } else {
                assert(order[w + 1] == old_order[w]);
                assert(0 <= w + 1 < order.len() && ks[order[w + 1] as int] == ks[k]);
            }
        }
    }
    assert(keys_covered(order, ks, i + 1));
}

proof fn lemma_insert_first(old_order: Seq<usize>, ks: Seq<Seq<int>>, i: int, j: int)
    requires
        keys_covered(old_order, ks, i),
        positions_first(old_order, ks, i),
        0 <= i <= usize::MAX,
        0 <= j <= old_order.len(),
        fits_at(old_order, ks, i, j),
    ensures
        positions_first(old_order.insert(j, i as usize), ks, i + 1),
{
    let order = old_order.insert(j, i as usize);
    lemma_lex_irreflexive(ks[i]);
    assert forall|x: int| 0 <= x < old_order.len() implies #[trigger] ks[old_order[x] as int]
        != ks[i] by {
        if x < j {
            assert(lex_lt(ks[old_order[x] as int], ks[i]));
        } else {
            assert(lex_lt(ks[i], ks[old_order[x] as int]));
        }
    }
    assert forall|j2: int| 0 <= j2 < order.len() implies {
        &&& #[trigger] order[j2] < i + 1
        &&& forall|k: int| 0 <= k < order[j2] ==> #[trigger] ks[k] != ks[order[j2] as int]
    } by {
        if j2 == j {
            assert(order[j2] == i);
            assert forall|k: int| 0 <= k < i implies #[trigger] ks[k] != ks[i] by {
                assert(listed(old_order, ks, ks[k]));
                let w = choose|w: int| 0 <= w < old_order.len() && #[trigger] ks[old_order[w] as int] == ks[k];
                assert(ks[old_order[w] as int] != ks[i]);
            }
        } else if j2 < j {
            assert(order[j2] == old_order[j2]);
        } else {
            assert(order[j2] == old_order[j2 - 1]);
        }
    }
}

/// The positions of the first occurrences of the distinct keys, in increasing key order.
pub fn sorted_first_occurrences(keys: &Vec<Vec<u64>>) -> (order: Vec<usize>)
    ensures
        first_occurrence_order(order@, key_seq(keys@), keys.len() as int),
{
    let ghost ks = key_seq(keys@);
    let mut order: Vec<usize> = Vec::new();
    let mut i: usize = 0;
    while i < keys.len()
        invariant
            i <= keys.len(),
            ks == key_seq(keys@),
            first_occurrence_order(order@, ks, i as int),
        decreases keys.len() - i,
    {
        let mut j: usize = 0;
        while j < order.len() && codes_less(&keys[order[j]], &keys[i])
            invariant
                j <= order.len(),
                i < keys.len(),
                ks == key_seq(keys@),
                first_occurrence_order(order@, ks, i as int),
                forall|x: int| 0 <= x < j ==> lex_lt(#[trigger] ks[order@[x] as int], ks[i as int]),
            decreases order.len() - j,
        {
            assert(ks[order@[j as int] as int] == codes(keys@[order@[j as int] as int]@));
            assert(ks[i as int] == codes(keys@[i as int]@));
            j = j + 1;
        }
        assert(ks[i as int] == codes(keys@[i as int]@));
        let present = j < order.len() && codes_equal(&keys[order[j]], &keys[i]);
        if present {
            proof {
                assert(ks[order@[j as int] as int] == codes(keys@[order@[j as int] as int]@));
                lemma_repeat_keeps_order(order@, ks, i as int, j as int);
            }
        } else {
            proof {
                if j < order.len() {
                    assert(ks[order@[j as int] as int] == codes(keys@[order@[j as int] as int]@));
                    lemma_lex_total(ks[order@[j as int] as int], ks[i as int]);
                }
                lemma_fits_at(order@, ks, i as int, j as int);
                lemma_insert_increase(order@, ks, i as int, j as int);
                lemma_insert_covered(order@, ks, i as int, j as int);
                lemma_insert_first(order@, ks, i as int, j as int);
            }
            order.insert(j, i);
        }
        i = i + 1;
    }
    order
}

} // verus!
