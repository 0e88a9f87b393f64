//! Rate snapshot store: keeps the raw counters of the previous poll and
//! turns the counters of the current poll into instantaneous per-index
//! write rates, with monotonic-counter-reset protection.

use vstd::prelude::*;

use crate::es_types::StatsResponse;
use crate::models::{IndexRate, IndexSnapshot};

verus! {

/// First snapshot stored under `name`, scanning left to right.
pub open spec fn find_snapshot(s: Seq<(String, IndexSnapshot)>, name: Seq<char>) -> Option<
    IndexSnapshot,
>
    decreases s.len(),
{
    if s.len() == 0 {
        None
    } else if s[0].0@ == name {
        Some(s[0].1)
    } else {
        find_snapshot(s.drop_first(), name)
    }
}

/// Instantaneous rate in thousandths of an operation per second, as a
/// mathematical integer: the counter delta over the elapsed time, or zero
/// when no time has passed or the counter moved backwards (a reset).
pub open spec fn inst_rate_math(prev_total: int, cur_total: int, elapsed_ms: int) -> int {
    if elapsed_ms > 0 && cur_total >= prev_total {
        (cur_total - prev_total) * 1_000_000 / elapsed_ms
    } else {
        0
    }
}

/// Clamps a non-negative mathematical integer into `u64`.
pub open spec fn capped_u64(x: int) -> u64
    recommends
        x >= 0,
{
    if x > u64::MAX {
        u64::MAX
    } else {
        x as u64
    }
}

/// Holds exactly the most recent poll's raw counters, to diff against the
/// next poll.
pub struct RateSnapshotStore {
    pub previous: Option<(u64, Vec<(String, IndexSnapshot)>)>,
}

/// The rate that `compute_rates` assigns to an index named `name` whose
/// current cumulative counter is `cur_total`, at time `now_ms`: zero on the
/// very first poll and for indices absent from the previous snapshot.
pub open spec fn spec_inst_rate(
    store: RateSnapshotStore,
    name: Seq<char>,
    cur_total: u64,
    now_ms: u64,
) -> u64 {
    match store.previous {
        None => 0,
        Some((t, prev)) => match find_snapshot(prev@, name) {
            None => 0,
            Some(p) => capped_u64(
                inst_rate_math(p.index_total as int, cur_total as int, now_ms - t),
            ),
        },
    }
}

/// First snapshot stored under `name`, as `find_snapshot` describes.
fn find_snapshot_exec<'a>(prev: &'a Vec<(String, IndexSnapshot)>, name: &String) -> (r: Option<
    &'a IndexSnapshot,
>)
    ensures
        match r {
            Some(p) => find_snapshot(prev@, name@) == Some(*p),
            None => find_snapshot(prev@, name@) is None,
        },
{
    let mut idx: usize = 0;
    proof {
        assert(prev@.skip(0) =~= prev@);
    }
    while idx < prev.len()
        invariant
            idx <= prev@.len(),
            find_snapshot(prev@, name@) == find_snapshot(prev@.skip(idx as int), name@),
        decreases prev@.len() - idx,
    {
        if prev[idx].0 == *name {
            proof {
                assert(prev@.skip(idx as int)[0] == prev@[idx as int]);
            }
            return Some(&prev[idx].1);
        }
        proof {
            assert(prev@.skip(idx as int).drop_first() =~= prev@.skip(idx as int + 1));
        }
        idx += 1;
    }
    None
}

impl RateSnapshotStore {
    /// A store with no previous poll recorded.
    pub fn new() -> (r: Self)
        ensures
            r.previous is None,
    {
        RateSnapshotStore { previous: None }
    }

    /// Turns the current poll's counters into display rows whose rate is the
    /// instantaneous rate against the previous snapshot, then stores the
    /// current counters as the new previous snapshot.
    pub fn compute_rates(&mut self, now_ms: u64, current: Vec<(String, IndexSnapshot)>) -> (rates:
        Vec<IndexRate>)
        ensures
            rates@.len() == current@.len(),
            forall|k: int|
                0 <= k < rates@.len() ==> {
                    &&& (#[trigger] rates@[k]).name == current@[k].0
                    &&& rates@[k].doc_count == current@[k].1.doc_count
                    &&& rates@[k].size_bytes == current@[k].1.size_bytes
                    &&& rates@[k].health == current@[k].1.health
                    &&& rates@[k].rate_milli == spec_inst_rate(
                        *old(self),
                        current@[k].0@,
                        current@[k].1.index_total,
                        now_ms,
                    )
                },
            final (self).previous == Some((now_ms, current)),
    {
        let mut rates: Vec<IndexRate> = Vec::new();
        let mut k: usize = 0;
        while k < current.len()
            invariant
                k <= current@.len(),
                rates@.len() == k,
                *self == *old(self),
                forall|j: int|
                    0 <= j < k ==> {
                        &&& (#[trigger] rates@[j]).name == current@[j].0
                        &&& rates@[j].doc_count == current@[j].1.doc_count
                        &&& rates@[j].size_bytes == current@[j].1.size_bytes
                        &&& rates@[j].health == current@[j].1.health
                        &&& rates@[j].rate_milli == spec_inst_rate(
                            *old(self),
                            current@[j].0@,
                            current@[j].1.index_total,
                            now_ms,
                        )
                    },
            decreases current@.len() - k,
        {
            let name = &current[k].0;
            let snap = &current[k].1;
            let rate: u64 = match &self.previous {
                None => 0u64,
                Some((t, prev)) => match find_snapshot_exec(prev, name) {
                    None => 0u64,
                    Some(p) => {
                        if now_ms > *t && snap.index_total >= p.index_total {
                            let elapsed: u64 = now_ms - *t;
                            let num: u128 = (snap.index_total - p.index_total) as u128
                                * 1_000_000u128;
                            let q: u128 = num / (elapsed as u128);
                            if q > u64::MAX as u128 {
                                u64::MAX
                            } else {
                                q as u64
                            }
                        } else {
                            0u64
                        }
                    },
                },
            };
            rates.push(
                IndexRate {
                    name: name.clone(),
                    doc_count: snap.doc_count,
                    rate_milli: rate,
                    size_bytes: snap.size_bytes,
                    health: snap.health.clone(),
                },
            );
            k += 1;
        }
        self.previous = Some((now_ms, current));
        rates
    }
}

/// Maps the statistics response onto snapshot pairs, entry by entry.
pub fn snapshots_of_stats(resp: &StatsResponse) -> (r: Vec<(String, IndexSnapshot)>)
    ensures
        r@.len() == resp.indices@.len(),
        forall|k: int|
            0 <= k < r@.len() ==> {
                &&& (#[trigger] r@[k]).0 == resp.indices@[k].0
                &&& r@[k].1.doc_count == resp.indices@[k].1.primaries.docs.count
                &&& r@[k].1.index_total == resp.indices@[k].1.primaries.indexing.index_total
                &&& r@[k].1.size_bytes == resp.indices@[k].1.primaries.store.size_in_bytes
                &&& r@[k].1.health == resp.indices@[k].1.health
            },
{
    let mut r: Vec<(String, IndexSnapshot)> = Vec::new();
    let mut k: usize = 0;
    while k < resp.indices.len()
        invariant
            k <= resp.indices@.len(),
            r@.len() == k,
            forall|j: int|
                0 <= j < k ==> {
                    &&& (#[trigger] r@[j]).0 == resp.indices@[j].0
                    &&& r@[j].1.doc_count == resp.indices@[j].1.primaries.docs.count
                    &&& r@[j].1.index_total == resp.indices@[j].1.primaries.indexing.index_total
                    &&& r@[j].1.size_bytes == resp.indices@[j].1.primaries.store.size_in_bytes
                    &&& r@[j].1.health == resp.indices@[j].1.health
                },
        decreases resp.indices@.len() - k,
    {
        let entry = &resp.indices[k];
        r.push(
            (
                entry.0.clone(),
                IndexSnapshot {
                    doc_count: entry.1.primaries.docs.count,
                    index_total: entry.1.primaries.indexing.index_total,
                    size_bytes: entry.1.primaries.store.size_in_bytes,
                    health: entry.1.health.clone(),
                },
            ),
        );
        k += 1;
    }
    r
}


/// `find_snapshot` over an extended sequence: an existing first match wins,
/// else the appended pair answers.
proof fn lemma_find_snapshot_push(
    s: Seq<(String, IndexSnapshot)>,
    p: (String, IndexSnapshot),
    n: Seq<char>,
)
    ensures
        find_snapshot(s.push(p), n) == if find_snapshot(s, n) is Some {
            find_snapshot(s, n)
        } else if p.0@ == n {
            Some(p.1)
        } else {
            None
        },
    decreases s.len(),
{
    if s.len() == 0 {
        assert(s.push(p)[0] == p);
        assert(s.push(p).drop_first() =~= Seq::<(String, IndexSnapshot)>::empty());
        assert(find_snapshot(s, n) is None);
        if p.0@ == n {
            assert(find_snapshot(s.push(p), n) == Some(p.1));
        } else {
            assert(find_snapshot(s.push(p), n) == find_snapshot(
                s.push(p).drop_first(),
                n,
            ));
            assert(find_snapshot(s.push(p), n) is None);
        }
    } else {
        assert(s.push(p)[0] == s[0]);
        assert(s.push(p).drop_first() =~= s.drop_first().push(p));
        lemma_find_snapshot_push(s.drop_first(), p, n);
        if s[0].0@ == n {
            assert(find_snapshot(s.push(p), n) == Some(s[0].1));
            assert(find_snapshot(s, n) == Some(s[0].1));
        } else {
            assert(find_snapshot(s.push(p), n) == find_snapshot(s.drop_first().push(p), n));
            assert(find_snapshot(s, n) == find_snapshot(s.drop_first(), n));
        }
    }
}


/// A name that `find_snapshot` misses occurs nowhere in the sequence.
proof fn lemma_find_snapshot_none_means_absent(s: Seq<(String, IndexSnapshot)>, n: Seq<char>)
    requires
        find_snapshot(s, n) is None,
    ensures
        forall|j: int| 0 <= j < s.len() ==> (#[trigger] s[j]).0@ != n,
    decreases s.len(),
{
    if s.len() > 0 {
        lemma_find_snapshot_none_means_absent(s.drop_first(), n);
        assert forall|j: int| 0 <= j < s.len() implies (#[trigger] s[j]).0@ != n by {
            if j > 0 {
                assert(s.drop_first()[j - 1] == s[j]);
            }
        }
    }
}

/// The snapshot pairs reduced to the first occurrence of each name, in
/// order of first appearance.
pub open spec fn dedup_pairs(s: Seq<(String, IndexSnapshot)>) -> Seq<(String, IndexSnapshot)>
    decreases s.len(),
{
    if s.len() == 0 {
        Seq::empty()
    } else if find_snapshot(s.drop_last(), s.last().0@) is Some {
        dedup_pairs(s.drop_last())
    } else {
        dedup_pairs(s.drop_last()).push(s.last())
    }
}

/// Drops every pair whose name appeared earlier, so that names become
/// unique keys while each name's first snapshot is kept.
pub fn dedup_by_name(input: Vec<(String, IndexSnapshot)>) -> (r: Vec<(String, IndexSnapshot)>)
    ensures
        r@ == dedup_pairs(input@),
        forall|k1: int, k2: int| 0 <= k1 < k2 < r@.len() ==> (#[trigger] r@[k1]).0@ != (
            #[trigger] r@[k2]).0@,
        forall|n: Seq<char>| find_snapshot(r@, n) == find_snapshot(input@, n),
{
    let ghost s0 = input@;
    let mut input = input;
    let mut r: Vec<(String, IndexSnapshot)> = Vec::new();
    proof {
        assert(s0.subrange(0, 0) =~= Seq::<(String, IndexSnapshot)>::empty());
        assert(dedup_pairs(s0.subrange(0, 0)) =~= Seq::<(String, IndexSnapshot)>::empty());
    }
    while input.len() > 0
        invariant
            r@.len() + input@.len() <= s0.len() + r@.len(),
            input@ =~= s0.skip(s0.len() - input@.len()),
            input@.len() <= s0.len(),
            r@ == dedup_pairs(s0.subrange(0, s0.len() - input@.len())),
            forall|k1: int, k2: int| 0 <= k1 < k2 < r@.len() ==> (#[trigger] r@[k1]).0@ != (
                #[trigger] r@[k2]).0@,
            forall|n: Seq<char>|
                find_snapshot(r@, n) == find_snapshot(
                    s0.subrange(0, s0.len() - input@.len()),
                    n,
                ),
        decreases input@.len(),
    {
        let ghost done = s0.len() - input@.len();
        let ghost prefix = s0.subrange(0, done);
        let ghost rs = r@;
        let p = input.remove(0);
        proof {
            assert(s0.skip(done)[0] == s0[done]);
            assert(p == s0[done]);
            assert(s0.skip(done).drop_first() =~= s0.skip(done + 1));
            assert(s0.subrange(0, done + 1).drop_last() =~= prefix);
            assert(s0.subrange(0, done + 1).last() == s0[done]);
        }
        let seen = find_snapshot_exec(&r, &p.0);
        let keep = seen.is_none();
        if keep {
            r.push(p);
        }
        proof {
            let ghost pg = s0[done];
            lemma_find_snapshot_push(rs, pg, pg.0@);
            if keep {
                lemma_find_snapshot_none_means_absent(rs, pg.0@);
                assert(r@ == rs.push(pg));
                assert(r@ == dedup_pairs(s0.subrange(0, done + 1)));
                assert forall|n: Seq<char>| true implies find_snapshot(r@, n) == find_snapshot(
                    s0.subrange(0, done + 1),
                    n,
                ) by {
                    lemma_find_snapshot_push(rs, pg, n);
                    lemma_find_snapshot_push(prefix, pg, n);
                    assert(s0.subrange(0, done + 1) =~= prefix.push(pg));
                }
            } else {
                assert(find_snapshot(rs, pg.0@) is Some);
                assert(find_snapshot(prefix, pg.0@) is Some);
                assert(r@ == dedup_pairs(s0.subrange(0, done + 1)));
                assert forall|n: Seq<char>| true implies find_snapshot(r@, n) == find_snapshot(
                    s0.subrange(0, done + 1),
                    n,
                ) by {
                    lemma_find_snapshot_push(prefix, pg, n);
                    assert(s0.subrange(0, done + 1) =~= prefix.push(pg));
                }
            }
        }
    }
    proof {
        assert(s0.subrange(0, s0.len() as int) =~= s0);
    }
    r
}

} // verus!
