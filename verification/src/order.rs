//! The order in which a list of named things is shown: by name, and where
//! two names are the same, in the order in which they were given.

use vstd::prelude::*;
use crate::lexical::{
    comes_before, lemma_text_before_asymmetric, lemma_text_before_irreflexive,
    lemma_text_before_total, lemma_text_before_transitive, text_before,
};

verus! {

/// The texts of a list of keys.
pub open spec fn key_texts(keys: Seq<Vec<char>>) -> Seq<Seq<char>> {
    Seq::new(keys.len(), |i: int| keys[i]@)
}

/// The positions that `order` names, as numbers.
pub open spec fn positions(order: Seq<usize>) -> Seq<int> {
    Seq::new(order.len(), |i: int| order[i] as int)
}

/// Whether entry `i` is shown before entry `j`: its key comes first, or the
/// keys are the same and `i` was given first.
pub open spec fn ranks_before(keys: Seq<Seq<char>>, i: int, j: int) -> bool {
    text_before(keys[i], keys[j]) || (keys[i] == keys[j] && i < j)
}

/// Whether `order` lists the first `n` entries of `keys`, each exactly once,
/// so that every entry is shown before the ones listed after it.
pub open spec fn lists_first(keys: Seq<Seq<char>>, n: int, order: Seq<int>) -> bool {
    &&& order.len() == n
    &&& forall|p: int| 0 <= p < order.len() ==> 0 <= #[trigger] order[p] < n
    &&& forall|k: int| 0 <= k < n ==> #[trigger] order.contains(k)
    &&& forall|p: int, q: int|
        0 <= p < q < order.len() ==> ranks_before(keys, #[trigger] order[p], #[trigger] order[q])
}

/// Whether `order` is the order in which the entries of `keys` are shown:
/// it names every entry exactly once, by its position in `keys`, sorted by
/// key, entries with the same key staying in the order they were given in.
pub open spec fn is_listing_order(keys: Seq<Seq<char>>, order: Seq<int>) -> bool {
    lists_first(keys, keys.len() as int, order)
}

/// Every position that a listing order names is the position of an entry.
pub proof fn lemma_listed_positions_exist(keys: Seq<Seq<char>>, n: int, order: Seq<usize>)
    requires
        lists_first(keys, n, positions(order)),
    ensures
        forall|p: int| 0 <= p < order.len() ==> (#[trigger] order[p]) < n,
{
    assert forall|p: int| 0 <= p < order.len() implies (#[trigger] order[p]) < n by {
        assert(positions(order)[p] == order[p]);
    }
}

proof fn lemma_insert_keeps_listing(keys: Seq<Seq<char>>, n: int, order: Seq<int>, at: int)
    requires
        0 <= n < keys.len(),
        lists_first(keys, n, order),
        0 <= at <= order.len(),
        forall|q: int| at <= q < order.len() ==> text_before(keys[n], keys[#[trigger] order[q]]),
        at > 0 ==> !text_before(keys[n], keys[order[at - 1]]),
    ensures
        lists_first(keys, n + 1, order.insert(at, n)),
{
    let grown = order.insert(at, n);
    assert forall|k: int| 0 <= k < n + 1 implies #[trigger] grown.contains(k) by {
        if k == n {
            assert(grown[at] == k);
        } else {
            assert(order.contains(k));
            let p = choose|p: int| 0 <= p < order.len() && order[p] == k;
            if p < at {
                assert(grown[p] == k);
            } else {
                assert(grown[p + 1] == k);
            }
        }
    }
    assert forall|p: int, q: int| 0 <= p < q < grown.len() implies ranks_before(
        keys,
        #[trigger] grown[p],
        #[trigger] grown[q],
    ) by {
        if q < at {
            assert(grown[p] == order[p] && grown[q] == order[q]);
        } else if q == at {
            let last = order[at - 1];
            let here = order[p];
            assert(grown[p] == order[p]);
            lemma_text_before_total(keys[last], keys[n]);
            if p < at - 1 {
                assert(ranks_before(keys, here, last));
                if text_before(keys[here], keys[last]) && text_before(keys[last], keys[n]) {
                    lemma_text_before_transitive(keys[here], keys[last], keys[n]);
                }
            }
        } else if p < at {
            assert(grown[p] == order[p] && grown[q] == order[q - 1]);
        } else if p == at {
            assert(grown[q] == order[q - 1]);
        } else {
            assert(grown[p] == order[p - 1] && grown[q] == order[q - 1]);
        }
    }
}

proof fn lemma_ranks_before_asymmetric(keys: Seq<Seq<char>>, i: int, j: int)
    ensures
        !(ranks_before(keys, i, j) && ranks_before(keys, j, i)),
{
    lemma_text_before_asymmetric(keys[i], keys[j]);
    lemma_text_before_irreflexive(keys[i]);
    lemma_text_before_irreflexive(keys[j]);
}

proof fn lemma_listings_agree_up_to(
    keys: Seq<Seq<char>>,
    first: Seq<int>,
    second: Seq<int>,
    m: int,
)
    requires
        is_listing_order(keys, first),
        is_listing_order(keys, second),
        0 <= m <= keys.len(),
    ensures
        forall|j: int| 0 <= j < m ==> first[j] == second[j],
    decreases m,
{
    if m > 0 {
        lemma_listings_agree_up_to(keys, first, second, m - 1);
        let i = m - 1;
        let x = first[i];
        let y = second[i];
        if x != y {
            assert(second.contains(x));
            let q = choose|q: int| 0 <= q < second.len() && second[q] == x;
            assert(first.contains(y));
            let p = choose|p: int| 0 <= p < first.len() && first[p] == y;
            lemma_ranks_before_asymmetric(keys, x, x);
            lemma_ranks_before_asymmetric(keys, y, y);
            lemma_ranks_before_asymmetric(keys, x, y);
            if q < i {
                assert(ranks_before(keys, first[q], first[i]));
            } else {
                assert(ranks_before(keys, second[i], second[q]));
            }
            if p < i {
                assert(ranks_before(keys, second[p], second[i]));
            } else {
                assert(ranks_before(keys, first[i], first[p]));
            }
        }
    }
}

/// A list of keys has one listing order and no other.
pub proof fn lemma_listing_order_is_unique(
    keys: Seq<Seq<char>>,
    first: Seq<int>,
    second: Seq<int>,
)
    requires
        is_listing_order(keys, first),
        is_listing_order(keys, second),
    ensures
        first == second,
{
    lemma_listings_agree_up_to(keys, first, second, keys.len() as int);
    assert(first =~= second);
}

/// Works out the order in which the entries of `keys` are shown.
pub fn listing_order(keys: &Vec<Vec<char>>) -> (order: Vec<usize>)
    ensures
        is_listing_order(key_texts(keys@), positions(order@)),
{
    let mut order: Vec<usize> = Vec::new();
    let mut next: usize = 0;
    while next < keys.len()
        invariant
            next <= keys.len(),
            lists_first(key_texts(keys@), next as int, positions(order@)),
        decreases keys.len() - next,
    {
        let mut at: usize = order.len();
        proof {
            lemma_listed_positions_exist(key_texts(keys@), next as int, order@);
        }
        while at > 0 && comes_before(&keys[next], &keys[order[at - 1]])
            invariant
                at <= order.len(),
                next < keys.len(),
                forall|p: int| 0 <= p < order.len() ==> (#[trigger] order[p]) < next,
                lists_first(key_texts(keys@), next as int, positions(order@)),
                forall|q: int|
                    at <= q < order.len() ==> text_before(
                        key_texts(keys@)[next as int],
                        key_texts(keys@)[#[trigger] positions(order@)[q]],
                    ),
            decreases at,
        {
            at -= 1;
        }
        proof {
            lemma_insert_keeps_listing(
                key_texts(keys@),
                next as int,
                positions(order@),
                at as int,
            );
            assert(positions(order@.insert(at as int, next)) =~= positions(order@).insert(
                at as int,
                next as int,
            ));
        }
        order.insert(at, next);
        next += 1;
    }
    order
}

} // verus!
