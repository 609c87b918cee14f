//! Ordering of the translation history: newest first, ties in stored order, cut to
//! an optional limit.  Items are identified by their position in the stored list and
//! ordered by their creation time as `(seconds since the epoch, nanoseconds)`.
use vstd::prelude::*;

verus! {

/// Creation time `a` is earlier than `b`.
pub open spec fn earlier(a: (i64, u32), b: (i64, u32)) -> bool {
    a.0 < b.0 || (a.0 == b.0 && a.1 < b.1)
}

/// Item `x` is listed before item `y`: it is newer, or as new and stored earlier.
pub open spec fn listed_before(keys: Seq<(i64, u32)>, x: int, y: int) -> bool {
    earlier(keys[y], keys[x]) || (keys[x] == keys[y] && x < y)
}

/// `order` lists distinct positions of `keys`, each listed before the ones after it.
pub open spec fn newest_first(keys: Seq<(i64, u32)>, order: Seq<usize>) -> bool {
    &&& forall|a: int| 0 <= a < order.len() ==> (#[trigger] order[a] as int) < keys.len()
    &&& forall|a: int, b: int|
        0 <= a < b < order.len() ==> #[trigger] listed_before(
            keys,
            order[a] as int,
            order[b] as int,
        )
}

/// `order` lists the first `m` items of the newest-first listing of `keys`: it is
/// newest-first, has `m` entries, and every item it leaves out is listed after all
/// those it keeps.
pub open spec fn leading_newest(keys: Seq<(i64, u32)>, order: Seq<usize>, m: int) -> bool {
    &&& order.len() == m
    &&& newest_first(keys, order)
    &&& forall|j: int, a: int|
        0 <= j < keys.len() && !order.contains(j as usize) && 0 <= a < order.len()
            ==> #[trigger] listed_before(keys, order[a] as int, j)
}

/// How many items a listing keeps: all of them, or at most `limit`.
pub open spec fn listing_len(n: int, limit: Option<usize>) -> int {
    match limit {
        Some(l) => if (l as int) < n {
            l as int
        } else {
            n
        },
        None => n,
    }
}

/// Whether creation time `a` is earlier than `b`.
pub fn is_earlier(a: (i64, u32), b: (i64, u32)) -> (r: bool)
    ensures
        r == earlier(a, b),
{
    a.0 < b.0 || (a.0 == b.0 && a.1 < b.1)
}

/// `listed_before` never holds both ways between two items.
pub proof fn lemma_listed_before_asymmetric(keys: Seq<(i64, u32)>, x: int, y: int)
    ensures
        !(listed_before(keys, x, y) && listed_before(keys, y, x)),
{
}

/// The order in which `list_history` shows the stored history: positions of the
/// items, newest first, items of equal time in stored order, at most `limit` of them.
pub fn history_order(created_at: &Vec<(i64, u32)>, limit: Option<usize>) -> (order: Vec<usize>)
    ensures
        leading_newest(created_at@, order@, listing_len(created_at@.len() as int, limit)),
{
    let n = created_at.len();
    let ghost keys = created_at@;
    let mut order: Vec<usize> = Vec::new();
    let mut i: usize = 0;
    while i < n
        invariant
            n == keys.len(),
            keys == created_at@,
            i <= n,
            order@.len() == i,
            forall|a: int| 0 <= a < order@.len() ==> (#[trigger] order@[a] as int) < i,
            forall|a: int, b: int|
                0 <= a < b < order@.len() ==> #[trigger] listed_before(
                    keys,
                    order@[a] as int,
                    order@[b] as int,
                ),
            forall|x: int| 0 <= x < i ==> #[trigger] order@.contains(x as usize),
        decreases n - i,
    {
        let key = created_at[i];
        let mut p: usize = 0;
        while p < order.len() && !is_earlier(created_at[order[p]], key)
            invariant
                n == keys.len(),
                keys == created_at@,
                i < n,
                key == keys[i as int],
                order@.len() == i,
                p <= order@.len(),
                forall|a: int| 0 <= a < order@.len() ==> (#[trigger] order@[a] as int) < i,
                forall|a: int|
                    0 <= a < p ==> !earlier(#[trigger] keys[order@[a] as int], key),
            decreases order@.len() - p,
        {
            p = p + 1;
        }
        let ghost old_order = order@;
        proof {
            // every entry from `p` on is strictly older than the new item
            assert forall|a: int| p <= a < old_order.len() implies earlier(
                #[trigger] keys[old_order[a] as int],
                key,
            ) by {
                if a > p {
                    assert(listed_before(keys, old_order[p as int] as int, old_order[a] as int));
                }
            }
        }
        order.insert(p, i);
        proof {
            let new_order = order@;
            assert(new_order == old_order.insert(p as int, i));
            assert forall|a: int, b: int| 0 <= a < b < new_order.len() implies #[trigger] listed_before(
                keys,
                new_order[a] as int,
                new_order[b] as int,
            ) by {
                if b < p {
                    assert(listed_before(keys, old_order[a] as int, old_order[b] as int));
                } else if b == p {
                    assert(!earlier(keys[old_order[a] as int], key));
                } else if a > p {
                    assert(listed_before(keys, old_order[a - 1] as int, old_order[b - 1] as int));
                } else if a == p {
                    assert(earlier(keys[old_order[b - 1] as int], key));
                } else {
                    assert(listed_before(keys, old_order[a] as int, old_order[b - 1] as int));
                }
            }
            assert forall|x: int| 0 <= x < i + 1 implies #[trigger] new_order.contains(
                x as usize,
            ) by {
                if x == i {
                    assert(new_order[p as int] == x as usize);
                } else {
                    assert(old_order.contains(x as usize));
                    let w = choose|w: int| 0 <= w < old_order.len() && old_order[w] == x as usize;
                    if w < p {
                        assert(new_order[w] == x as usize);
                    } else {
                        assert(new_order[w + 1] == x as usize);
                    }
                }
            }
        }
        i = i + 1;
    }
    let m: usize = match limit {
        Some(l) => if l < n {
            l
        } else {
            n
        },
        None => n,
    };
    let ghost full = order@;
    order.truncate(m);
    proof {
        let kept = order@;
        assert(kept == full.take(m as int));
        assert forall|j: int, a: int|
            0 <= j < keys.len() && !kept.contains(j as usize) && 0 <= a < kept.len()
                implies #[trigger] listed_before(keys, kept[a] as int, j) by {
            assert(full.contains(j as usize));
            let w = choose|w: int| 0 <= w < full.len() && full[w] == j as usize;
            if w < m {
                assert(kept[w] == j as usize);
            }
            assert(listed_before(keys, full[a] as int, full[w] as int));
        }
    }
    order
}

} // verus!
