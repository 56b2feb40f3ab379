//! Stable ordering of positions by an integer key.
//!
//! Turn order and effect resolution order are both "ascending by key, earlier
//! entry first among equals". This module computes that order as a list of
//! positions and proves that it is the one such list.
use vstd::prelude::*;

verus! {

/// Whether position `a` comes before position `b`: smaller key first, and
/// among equal keys the smaller position.
pub open spec fn comes_before(keys: Seq<i64>, a: int, b: int) -> bool {
    keys[a] < keys[b] || (keys[a] == keys[b] && a < b)
}

/// Whether position `p` is an entry of `order`.
pub open spec fn lists(order: Seq<usize>, p: int) -> bool {
    exists|i: int| 0 <= i < order.len() && #[trigger] order[i] == p
}

/// `order` lists each position below `n` exactly once.
pub open spec fn is_arrangement(order: Seq<usize>, n: nat) -> bool {
    &&& order.len() == n
    &&& forall|i: int| 0 <= i < order.len() ==> (#[trigger] order[i]) < n
    &&& forall|i: int, j: int|
        0 <= i < j < order.len() ==> (#[trigger] order[i]) != (#[trigger] order[j])
    &&& forall|p: int| 0 <= p < n ==> #[trigger] lists(order, p)
}

/// `order` lists the positions of `keys` in ascending order of key, keeping
/// positions with equal keys in the order of their positions.
pub open spec fn is_stable_order(keys: Seq<i64>, order: Seq<usize>) -> bool {
    &&& is_arrangement(order, keys.len())
    &&& forall|i: int, j: int|
        0 <= i < j < order.len() ==> comes_before(
            keys,
            (#[trigger] order[i]) as int,
            (#[trigger] order[j]) as int,
        )
}

/// Where the next position goes in `order`: behind the last entry whose key is
/// not greater than `key`.
pub open spec fn insertion_point(keys: Seq<i64>, order: Seq<usize>, key: i64) -> int
    decreases order.len(),
{
    if order.len() == 0 {
        0
    } else if keys[order.last() as int] <= key {
        order.len() as int
    } else {
        insertion_point(keys, order.drop_last(), key)
    }
}

/// The stable order of the first `n` positions of `keys`.
pub open spec fn stable_prefix_order(keys: Seq<i64>, n: nat) -> Seq<usize>
    decreases n,
{
    if n == 0 {
        Seq::empty()
    } else {
        let before = stable_prefix_order(keys, (n - 1) as nat);
        before.insert(insertion_point(keys, before, keys[n - 1]), (n - 1) as usize)
    }
}

/// The positions of `keys`, ascending by key, earlier position first among
/// equal keys.
pub open spec fn stable_order(keys: Seq<i64>) -> Seq<usize> {
    stable_prefix_order(keys, keys.len())
}

/// The insertion point lies within the list, everything before it has a key
/// that is not greater, everything from it on a key that is greater.
pub proof fn lemma_insertion_point(keys: Seq<i64>, order: Seq<usize>, key: i64)
    requires
        forall|i: int, j: int|
            0 <= i < j < order.len() ==> keys[(#[trigger] order[i]) as int] <= keys[(
            #[trigger] order[j]) as int],
    ensures
        0 <= insertion_point(keys, order, key) <= order.len(),
        forall|i: int|
            0 <= i < insertion_point(keys, order, key) ==> keys[(#[trigger] order[i]) as int]
                <= key,
        forall|i: int|
            insertion_point(keys, order, key) <= i < order.len() ==> keys[(
            #[trigger] order[i]) as int] > key,
    decreases order.len(),
{
    if order.len() == 0 {
    } else if keys[order.last() as int] <= key {
        assert forall|i: int| 0 <= i < order.len() implies keys[(#[trigger] order[i]) as int]
            <= key by {
        }
    } else {
        let shorter = order.drop_last();
        assert forall|i: int, j: int| 0 <= i < j < shorter.len() implies keys[(
        #[trigger] shorter[i]) as int] <= keys[(#[trigger] shorter[j]) as int] by {
        }
        lemma_insertion_point(keys, shorter, key);
        let p = insertion_point(keys, shorter, key);
        assert forall|i: int| 0 <= i < p implies keys[(#[trigger] order[i]) as int] <= key by {
            assert(shorter[i] == order[i]);
        }
        assert forall|i: int| p <= i < order.len() implies keys[(#[trigger] order[i]) as int]
            > key by {
            if i < order.len() - 1 {
                assert(shorter[i] == order[i]);
            }
        }
    }
}

/// What [`stable_prefix_order`] builds is the stable order of the prefix.
pub proof fn lemma_stable_prefix_order(keys: Seq<i64>, n: nat)
    requires
        n <= keys.len(),
        keys.len() <= usize::MAX,
    ensures
        is_stable_order(keys.take(n as int), stable_prefix_order(keys, n)),
    decreases n,
{
    let order = stable_prefix_order(keys, n);
    let prefix = keys.take(n as int);
    if n == 0 {
    } else {
        let m = (n - 1) as nat;
        let before = stable_prefix_order(keys, m);
        lemma_stable_prefix_order(keys, m);
        let key = keys[n - 1];
        assert forall|i: int, j: int| 0 <= i < j < before.len() implies keys[(
        #[trigger] before[i]) as int] <= keys[(#[trigger] before[j]) as int] by {
        }
        lemma_insertion_point(keys, before, key);
        let p = insertion_point(keys, before, key);
        // Every entry is one of the old ones or the new position.
        assert forall|i: int| 0 <= i < order.len() implies (#[trigger] order[i]) < n by {
        }
        assert forall|i: int, j: int| 0 <= i < j < order.len() implies comes_before(
            prefix,
            (#[trigger] order[i]) as int,
            (#[trigger] order[j]) as int,
        ) by {
        }
        assert forall|i: int, j: int| 0 <= i < j < order.len() implies (#[trigger] order[i]) != (
        #[trigger] order[j]) by {
        }
        assert forall|q: int| 0 <= q < n implies #[trigger] lists(order, q) by {
            if q == n - 1 {
                assert(order[p] == q);
            } else {
                assert(lists(before, q));
                let i0 = choose|i: int| 0 <= i < before.len() && #[trigger] before[i] == q;
                if i0 < p {
                    assert(order[i0] == q);
                } else {
                    assert(order[i0 + 1] == before[i0]);
                }
            }
        }
    }
}

/// The stable order is an arrangement of all positions, ascending by key and
/// keeping the order of the positions among equal keys.
pub proof fn lemma_stable_order(keys: Seq<i64>)
    requires
        keys.len() <= usize::MAX,
    ensures
        is_stable_order(keys, stable_order(keys)),
{
    lemma_stable_prefix_order(keys, keys.len());
}

/// There is only one stable order: any list that meets [`is_stable_order`] is
/// [`stable_order`].
pub proof fn lemma_stable_order_unique(keys: Seq<i64>, a: Seq<usize>, b: Seq<usize>)
    requires
        is_stable_order(keys, a),
        is_stable_order(keys, b),
    ensures
        a == b,
{
    assert forall|i: int| 0 <= i < a.len() implies a[i] == b[i] by {
        lemma_agree_up_to(keys, a, b, i);
    }
}

/// Two stable orders of the same keys agree at every position up to `i`.
proof fn lemma_agree_up_to(keys: Seq<i64>, a: Seq<usize>, b: Seq<usize>, i: int)
    requires
        is_stable_order(keys, a),
        is_stable_order(keys, b),
        0 <= i < a.len(),
    ensures
        forall|k: int| 0 <= k <= i ==> a[k] == b[k],
    decreases i,
{
    if i > 0 {
        lemma_agree_up_to(keys, a, b, i - 1);
    }
    if a[i] != b[i] {
        // Each of the two entries occurs somewhere in the other list, and it
        // cannot be earlier than `i`, where the lists agree.
        assert(lists(b, a[i] as int));
        assert(lists(a, b[i] as int));
    }
}

/// Computes the stable order of `keys`.
pub fn stable_order_of(keys: &Vec<i64>) -> (order: Vec<usize>)
    ensures
        order@ == stable_order(keys@),
        is_stable_order(keys@, order@),
{
    let mut order: Vec<usize> = Vec::new();
    let mut n: usize = 0;
    while n < keys.len()
        invariant
            n <= keys.len(),
            order@ == stable_prefix_order(keys@, n as nat),
        decreases keys.len() - n,
    {
        proof {
            lemma_stable_prefix_order(keys@, n as nat);
            assert(order@.take(order@.len() as int) =~= order@);
        }
        let key = keys[n];
        let mut p: usize = order.len();
        while p > 0 && keys[order[p - 1]] > key
            invariant
                p <= order.len(),
                order.len() == n,
                n < keys.len(),
                key == keys@[n as int],
                forall|i: int| 0 <= i < order.len() ==> (#[trigger] order@[i]) < n,
                insertion_point(keys@, order@, key) == insertion_point(
                    keys@,
                    order@.take(p as int),
                    key,
                ),
            decreases p,
        {
            proof {
                let shown = order@.take(p as int);
                assert(shown.drop_last() =~= order@.take(p - 1));
            }
            p -= 1;
        }
        order.insert(p, n);
        n += 1;
    }
    proof {
        lemma_stable_order(keys@);
    }
    order
}

} // verus!
