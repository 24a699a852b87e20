//! Choosing and ordering the processes of the process table.
//!
//! Processes are listed in decreasing order of the sort field; processes
//! with equal values keep the order in which they were read (the sort is
//! stable), and the list is cut after `count` entries.
use vstd::prelude::*;
use crate::cli::SortKey;

verus! {

/// What a process is ordered by: an integer that orders processes as
/// their CPU usage does, and their resident memory in bytes.
#[derive(Clone, Copy, Debug)]
pub struct ProcessRank {
    pub cpu_rank: u64,
    pub memory_bytes: u64,
}

/// The value of the sort field of a process.
pub open spec fn sort_value(r: ProcessRank, key: SortKey) -> u64 {
    match key {
        SortKey::Cpu => r.cpu_rank,
        SortKey::Mem => r.memory_bytes,
    }
}

/// The sort field of every process, in reading order.
pub open spec fn sort_values(ranks: Seq<ProcessRank>, key: SortKey) -> Seq<u64> {
    Seq::new(ranks.len(), |i: int| sort_value(ranks[i], key))
}

/// Process `i` is listed before process `j`: a larger value first, and
/// between equal values the one read first.
pub open spec fn listed_before(values: Seq<u64>, i: int, j: int) -> bool {
    values[i] > values[j] || (values[i] == values[j] && i < j)
}

/// `order` is the process table for `values` cut after `count` entries:
/// `min(count, n)` distinct processes in listing order, and every process
/// left out is listed after every process kept.
pub open spec fn is_top_order(values: Seq<u64>, count: nat, order: Seq<usize>) -> bool {
    &&& order.len() == (if count < values.len() { count } else { values.len() })
    &&& forall|i: int| 0 <= i < order.len() ==> #[trigger] order[i] < values.len()
    &&& forall|i: int, j: int|
        0 <= i < j < order.len() ==> listed_before(values, #[trigger] order[i] as int, #[trigger] order[j] as int)
    &&& forall|x: int, i: int|
        0 <= x < values.len() && !order.contains(x as usize) && 0 <= i < order.len()
            ==> #[trigger] listed_before(values, order[i] as int, x)
}

/// The sort field of one process.
pub fn sort_value_of(r: &ProcessRank, key: &SortKey) -> (v: u64)
    ensures
        v == sort_value(*r, *key),
{
    match key {
        SortKey::Cpu => r.cpu_rank,
        SortKey::Mem => r.memory_bytes,
    }
}

/// The positions (in `ranks`) of the processes of the table, in listing
/// order: sorted by the sort field, largest first, stable, and cut after
/// `count` entries.
pub fn rank_processes(ranks: &Vec<ProcessRank>, sort_key: &SortKey, count: usize) -> (order: Vec<usize>)
    ensures
        is_top_order(sort_values(ranks@, *sort_key), count as nat, order@),
{
    let n = ranks.len();
    let ghost values = sort_values(ranks@, *sort_key);
    let mut keys: Vec<u64> = Vec::new();
    for k in 0..n
        invariant
            n == ranks@.len(),
            values == sort_values(ranks@, *sort_key),
            keys@.len() == k,
            forall|i: int| 0 <= i < k ==> keys@[i] == values[i],
    {
        keys.push(sort_value_of(&ranks[k], sort_key));
    }
    assert(keys@ =~= values);

    let mut order: Vec<usize> = Vec::new();
    for idx in 0..n
        invariant
            n == values.len(),
            keys@ == values,
            order@.len() == idx,
            forall|i: int| 0 <= i < order@.len() ==> #[trigger] order@[i] < idx,
            forall|i: int, j: int|
                0 <= i < j < order@.len() ==> listed_before(values, #[trigger] order@[i] as int, #[trigger] order@[j] as int),
            forall|x: usize| x < idx ==> #[trigger] order@.contains(x),
    {
        let v = keys[idx];
        let mut p: usize = 0;
        while p < order.len() && keys[order[p]] >= v
            invariant
                n == values.len(),
                keys@ == values,
                p <= order@.len(),
                idx < n,
                v == values[idx as int],
                forall|i: int| 0 <= i < order@.len() ==> #[trigger] order@[i] < idx,
                forall|i: int| 0 <= i < p ==> values[#[trigger] order@[i] as int] >= v,
            decreases order@.len() - p,
        {
            p = p + 1;
        }
        let ghost before = order@;
        order.insert(p, idx);
        assert forall|i: int, j: int|
            0 <= i < j < order@.len() implies listed_before(values, #[trigger] order@[i] as int, #[trigger] order@[j] as int) by {
            if j < p {
                assert(order@[i] == before[i] && order@[j] == before[j]);
            } else if j == p {
                assert(order@[i] == before[i]);
            } else if i == p {
                assert(order@[j] == before[j - 1]);
                assert(values[before[p as int] as int] < v);
                if j - 1 > p {
                    assert(listed_before(values, before[p as int] as int, before[j - 1] as int));
                }
            } else if i < p {
                assert(order@[i] == before[i] && order@[j] == before[j - 1]);
            } else {
                assert(order@[i] == before[i - 1] && order@[j] == before[j - 1]);
            }
        }
        assert forall|x: usize| x < idx + 1 implies #[trigger] order@.contains(x) by {
            if x == idx {
                assert(order@[p as int] == idx);
            } else {
                assert(before.contains(x));
                let k = choose|k: int| 0 <= k < before.len() && before[k] == x;
                if k < p {
                    assert(order@[k] == x);
                } else {
                    assert(order@[k + 1] == x);
                }
            }
        }
    }
    let ghost full = order@;
    order.truncate(count);
    assert forall|x: int, i: int|
        0 <= x < values.len() && !order@.contains(x as usize) && 0 <= i < order@.len()
            implies #[trigger] listed_before(values, order@[i] as int, x) by {
        assert(full.contains((x as usize)));
        let k = choose|k: int| 0 <= k < full.len() && full[k] == x as usize;
        assert(order@[i] == full[i]);
        if k < order@.len() {
            assert(order@[k] == x as usize);
        }
    }
    order
}

proof fn lemma_top_order_agree_upto(values: Seq<u64>, c1: nat, c2: nat, a: Seq<usize>, b: Seq<usize>, n: int)
    requires
        c1 <= c2,
        is_top_order(values, c1, a),
        is_top_order(values, c2, b),
        0 <= n <= a.len(),
    ensures
        forall|m: int| 0 <= m < n ==> a[m] == b[m],
    decreases n,
{
    if n > 0 {
        lemma_top_order_agree_upto(values, c1, c2, a, b, n - 1);
        let k = n - 1;
        if a[k] != b[k] {
            // b[k] is listed after a[k] ...
            if a.contains(b[k]) {
                let p = choose|p: int| 0 <= p < a.len() && a[p] == b[k];
                if p < k {
                    assert(a[p] == b[p]);
                    assert(listed_before(values, b[p] as int, b[k] as int));
                    assert(false);
                }
                assert(listed_before(values, a[k] as int, a[p] as int));
            } else {
                assert(listed_before(values, a[k] as int, b[k] as int));
            }
            // ... and a[k] is listed after b[k].
            if b.contains(a[k]) {
                let q = choose|q: int| 0 <= q < b.len() && b[q] == a[k];
                if q < k {
                    assert(a[q] == b[q]);
                    assert(listed_before(values, a[q] as int, a[k] as int));
                    assert(false);
                }
                assert(listed_before(values, b[k] as int, b[q] as int));
            } else {
                assert(listed_before(values, b[k] as int, a[k] as int));
            }
            assert(false);
        }
    }
}

/// Asking for fewer processes gives a prefix of the longer table: the
/// table cut after `c1` entries is the first `c1` entries of the table cut
/// after `c2 >= c1` entries.  With `c1 == c2` this says that the table is
/// determined by the values and the count alone.
pub proof fn lemma_top_order_prefix(values: Seq<u64>, c1: nat, c2: nat, a: Seq<usize>, b: Seq<usize>)
    requires
        c1 <= c2,
        is_top_order(values, c1, a),
        is_top_order(values, c2, b),
    ensures
        a.len() <= b.len(),
        a == b.subrange(0, a.len() as int),
{
    lemma_top_order_agree_upto(values, c1, c2, a, b, a.len() as int);
    assert(a =~= b.subrange(0, a.len() as int));
}

/// Each process in the table has a sort value at least as large as the
/// next one: the table is in decreasing order of the sort field.
pub proof fn lemma_top_order_sorted(values: Seq<u64>, count: nat, order: Seq<usize>, i: int, j: int)
    requires
        is_top_order(values, count, order),
        0 <= i < j < order.len(),
    ensures
        values[order[i] as int] >= values[order[j] as int],
        values[order[i] as int] == values[order[j] as int] ==> order[i] < order[j],
{
    assert(listed_before(values, order[i] as int, order[j] as int));
}

/// The table orders by memory under the memory order and by the CPU rank
/// under the CPU order; it lists each process at most once, and no process
/// left out has a larger sort field than one that is kept.
pub proof fn lemma_top_order_keeps_largest(
    ranks: Seq<ProcessRank>,
    key: SortKey,
    count: nat,
    order: Seq<usize>,
    i: int,
    j: int,
    x: int,
)
    requires
        is_top_order(sort_values(ranks, key), count, order),
    ensures
        0 <= x < ranks.len() ==> sort_values(ranks, key)[x] == (if key == SortKey::Mem {
            ranks[x].memory_bytes
        } else {
            ranks[x].cpu_rank
        }),
        0 <= i < j < order.len() ==> order[i] != order[j],
        0 <= i < order.len() && 0 <= x < ranks.len() && !order.contains(x as usize) ==> ({
            let k = ranks[order[i] as int];
            let o = ranks[x];
            if key == SortKey::Mem {
                k.memory_bytes >= o.memory_bytes
            } else {
                k.cpu_rank >= o.cpu_rank
            }
        }),
{
    let values = sort_values(ranks, key);
    if 0 <= i < j < order.len() {
        assert(listed_before(values, order[i] as int, order[j] as int));
    }
    if 0 <= i < order.len() && 0 <= x < ranks.len() && !order.contains(x as usize) {
        assert(listed_before(values, order[i] as int, x));
        assert(order[i] < values.len());
    }
}

} // verus!
