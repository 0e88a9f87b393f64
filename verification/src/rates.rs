//! Rate smoother: one bounded window of recent instantaneous rates per
//! index. The displayed rate is the arithmetic mean of the window; windows
//! of indices that vanish from a poll are discarded.

use vstd::prelude::*;

use std::collections::VecDeque;

use crate::models::IndexRate;

verus! {

/// Sum of a rate window, as a mathematical integer.
pub open spec fn sum_u64(s: Seq<u64>) -> int
    decreases s.len(),
{
    if s.len() == 0 {
        0
    } else {
        sum_u64(s.drop_last()) + s.last()
    }
}

/// Arithmetic mean of a nonempty rate window, rounded toward zero.
pub open spec fn seq_mean(s: Seq<u64>) -> int
    recommends
        s.len() >= 1,
{
    sum_u64(s) / (s.len() as int)
}

/// One bounded-push step: the new sample goes on the right, and the oldest
/// sample leaves on the left when the window is full.
pub open spec fn window_push(w: Seq<u64>, cap: nat, x: u64) -> Seq<u64> {
    if w.len() >= cap {
        w.drop_first().push(x)
    } else {
        w.push(x)
    }
}

/// The window that results from feeding `samples` one by one, oldest first,
/// into an empty window of capacity `cap`.
pub open spec fn fold_window(samples: Seq<u64>, cap: nat) -> Seq<u64>
    decreases samples.len(),
{
    if samples.len() == 0 {
        Seq::empty()
    } else {
        window_push(fold_window(samples.drop_last(), cap), cap, samples.last())
    }
}

/// Feeding any sample sequence into a window of capacity `cap` leaves
/// exactly the last `min(cap, samples.len())` samples, in insertion order;
/// the displayed rate is therefore the mean of exactly those samples.
pub proof fn lemma_window_holds_recent_samples(samples: Seq<u64>, cap: nat)
    requires
        cap >= 1,
    ensures
        fold_window(samples, cap).len() == if samples.len() <= cap {
            samples.len()
        } else {
            cap
        },
        fold_window(samples, cap) == samples.skip(
            if samples.len() <= cap {
                0
            } else {
                samples.len() - cap
            },
        ),
    decreases samples.len(),
{
    if samples.len() == 0 {
        assert(fold_window(samples, cap) =~= samples.skip(0));
    } else {
        let head = samples.drop_last();
        lemma_window_holds_recent_samples(head, cap);
        if head.len() < cap {
            assert(fold_window(samples, cap) =~= samples.skip(0));
        } else {
            assert(fold_window(head, cap) == head.skip(head.len() - cap));
            assert(fold_window(samples, cap) =~= samples.skip(samples.len() - cap));
        }
    }
}

/// Sums of rate windows are non-negative and at most `len * u64::MAX`.
proof fn lemma_sum_bounds(s: Seq<u64>)
    ensures
        0 <= sum_u64(s) <= s.len() * u64::MAX,
    decreases s.len(),
{
    if s.len() > 0 {
        lemma_sum_bounds(s.drop_last());
    }
}

/// The smoothing window of one index.
pub struct RateWindow {
    pub name: String,
    pub samples: VecDeque<u64>,
}

/// First window stored under `name`, scanning left to right.
pub open spec fn find_window(s: Seq<RateWindow>, name: Seq<char>) -> Option<Seq<u64>>
    decreases s.len(),
{
    if s.len() == 0 {
        None
    } else if s[0].name@ == name {
        Some(s[0].samples@)
    } else {
        find_window(s.drop_first(), name)
    }
}

proof fn lemma_find_window_push(s: Seq<RateWindow>, w: RateWindow, n: Seq<char>)
    ensures
        find_window(s.push(w), n) == if find_window(s, n) is Some {
            find_window(s, n)
        } else if w.name@ == n {
            Some(w.samples@)
        } else {
            None
        },
    decreases s.len(),
{
    if s.len() == 0 {
        assert(s.push(w)[0] == w);
        assert(s.push(w).drop_first() =~= Seq::<RateWindow>::empty());
    } else {
        assert(s.push(w)[0] == s[0]);
        assert(s.push(w).drop_first() =~= s.drop_first().push(w));
        lemma_find_window_push(s.drop_first(), w, n);
    }
}

proof fn lemma_find_window_no_match(s: Seq<RateWindow>, n: Seq<char>)
    requires
        forall|j: int| 0 <= j < s.len() ==> (#[trigger] s[j]).name@ != n,
    ensures
        find_window(s, n) is None,
    decreases s.len(),
{
    if s.len() > 0 {
        lemma_find_window_no_match(s.drop_first(), n);
    }
}

proof fn lemma_find_window_first_match(s: Seq<RateWindow>, n: Seq<char>, k: int)
    requires
        0 <= k < s.len(),
        s[k].name@ == n,
        forall|j: int| 0 <= j < k ==> (#[trigger] s[j]).name@ != n,
    ensures
        find_window(s, n) == Some(s[k].samples@),
    decreases k,
{
    if k > 0 {
        lemma_find_window_first_match(s.drop_first(), n, k - 1);
    }
}

proof fn lemma_find_window_update(s: Seq<RateWindow>, k: int, w: RateWindow, n: Seq<char>)
    requires
        0 <= k < s.len(),
        w.name@ == s[k].name@,
        forall|j: int| 0 <= j < k ==> (#[trigger] s[j]).name@ != s[k].name@,
    ensures
        find_window(s.update(k, w), n) == if n == s[k].name@ {
            Some(w.samples@)
        } else {
            find_window(s, n)
        },
    decreases k,
{
    if k == 0 {
        assert(s.update(0, w)[0] == w);
        assert(s.update(0, w).drop_first() =~= s.drop_first());
    } else {
        assert(s.update(k, w)[0] == s[0]);
        assert(s.update(k, w).drop_first() =~= s.drop_first().update(k - 1, w));
        lemma_find_window_update(s.drop_first(), k - 1, w, n);
    }
}

/// Mean of a nonempty window, summed exactly in wide arithmetic.
fn window_mean(samples: &VecDeque<u64>) -> (m: u64)
    requires
        samples@.len() >= 1,
    ensures
        m as int == seq_mean(samples@),
{
    let n = samples.len();
    let mut acc: u128 = 0;
    let mut i: usize = 0;
    proof {
        assert(samples@.subrange(0, 0) =~= Seq::<u64>::empty());
    }
    while i < n
        invariant
            i <= n,
            n == samples@.len(),
            acc == sum_u64(samples@.subrange(0, i as int)),
        decreases n - i,
    {
        proof {
            lemma_sum_bounds(samples@.subrange(0, i as int));
            assert(samples@.subrange(0, i as int + 1).drop_last() =~= samples@.subrange(
                0,
                i as int,
            ));
        }
        acc = acc + (samples[i] as u128);
        i += 1;
    }
    proof {
        assert(samples@.subrange(0, n as int) =~= samples@);
        lemma_sum_bounds(samples@);
        assert(sum_u64(samples@) / (samples@.len() as int) <= u64::MAX) by (nonlinear_arith)
            requires
                sum_u64(samples@) <= samples@.len() * u64::MAX,
                samples@.len() >= 1,
        ;
    }
    (acc / (n as u128)) as u64
}

/// Per-index smoothing state: one window per index, capacity `cap` each.
pub struct Smoother {
    pub cap: usize,
    pub windows: Vec<RateWindow>,
}

impl Smoother {
    /// Well-formed: capacity at least one, at most one window per name, and
    /// every window nonempty and within capacity.
    pub open spec fn wf(self) -> bool {
        &&& self.cap >= 1
        &&& forall|k1: int, k2: int|
            0 <= k1 < k2 < self.windows@.len() ==> (#[trigger] self.windows@[k1]).name@ != (
            #[trigger] self.windows@[k2]).name@
        &&& forall|k: int|
            0 <= k < self.windows@.len() ==> 1 <= (#[trigger] self.windows@[k]).samples@.len()
                <= self.cap
    }

    /// Contents of the window stored for `name`, if any.
    pub open spec fn window_of(self, name: Seq<char>) -> Option<Seq<u64>> {
        find_window(self.windows@, name)
    }

    /// A fresh smoother; a requested sample count below one is raised to one.
    pub fn new(samples: usize) -> (r: Self)
        ensures
            r.wf(),
            r.cap == if samples >= 1 {
                samples
            } else {
                1
            },
            forall|n: Seq<char>| r.window_of(n) is None,
    {
        let cap = if samples >= 1 {
            samples
        } else {
            1
        };
        let r = Smoother { cap, windows: Vec::new() };
        proof {
            assert forall|n: Seq<char>| r.window_of(n) is None by {
                lemma_find_window_no_match(r.windows@, n);
            }
        }
        r
    }

    /// Index of the window stored for `name`, if any.
    fn find_index(&self, name: &String) -> (r: Option<usize>)
        ensures
            match r {
                Some(k) => {
                    &&& k < self.windows@.len()
                    &&& self.windows@[k as int].name@ == name@
                    &&& forall|j: int| 0 <= j < k ==> (#[trigger] self.windows@[j]).name@ != name@
                },
                None => forall|j: int|
                    0 <= j < self.windows@.len() ==> (#[trigger] self.windows@[j]).name@ != name@,
            },
    {
        let n = self.windows.len();
        let mut k: usize = 0;
        while k < n
            invariant
                k <= n,
                n == self.windows@.len(),
                forall|j: int| 0 <= j < k ==> (#[trigger] self.windows@[j]).name@ != name@,
            decreases n - k,
        {
            if self.windows[k].name == *name {
                return Some(k);
            }
            k += 1;
        }
        None
    }

    /// Pushes one instantaneous rate into the window of `name` (creating it
    /// if absent, evicting the oldest sample if full) and returns the mean
    /// of the window's new contents: the smoothed rate to display.
    pub fn push_sample(&mut self, name: &String, rate: u64) -> (mean: u64)
        requires
            old(self).wf(),
        ensures
            final (self).wf(),
            final (self).cap == old(self).cap,
            final (self).window_of(name@) == Some(
                window_push(
                    match old(self).window_of(name@) {
                        Some(w) => w,
                        None => Seq::<u64>::empty(),
                    },
                    old(self).cap as nat,
                    rate,
                ),
            ),
            forall|n: Seq<char>| n != name@ ==> final (self).window_of(n) == old(self).window_of(n),
            mean as int == seq_mean(
                window_push(
                    match old(self).window_of(name@) {
                        Some(w) => w,
                        None => Seq::<u64>::empty(),
                    },
                    old(self).cap as nat,
                    rate,
                ),
            ),
    {
        let cap = self.cap;
        match self.find_index(name) {
            Some(k) => {
                proof {
                    lemma_find_window_first_match(self.windows@, name@, k as int);
                }
                let ghost s0 = self.windows@;
                let mut w = self.windows.remove(k);
                if w.samples.len() >= cap {
                    let _ = w.samples.pop_front();
                }
                w.samples.push_back(rate);
                let m = window_mean(&w.samples);
                let ghost wv = w.samples@;
                self.windows.insert(k, w);
                proof {
                    assert(wv =~= window_push(s0[k as int].samples@, old(self).cap as nat, rate));
                    assert(self.windows@ =~= s0.update(k as int, self.windows@[k as int]));
                    assert(self.windows@[k as int].samples@ == wv);
                    assert forall|n: Seq<char>| true implies self.window_of(n) == (
                    if n == s0[k as int].name@ {
                        Some(self.windows@[k as int].samples@)
                    } else {
                        find_window(s0, n)
                    }) by {
                        lemma_find_window_update(s0, k as int, self.windows@[k as int], n);
                    }
                }
                m
            },
            None => {
                proof {
                    lemma_find_window_no_match(self.windows@, name@);
                }
                let mut samples: VecDeque<u64> = VecDeque::new();
                samples.push_back(rate);
                let w = RateWindow { name: name.clone(), samples };
                let ghost s0 = self.windows@;
                let ghost wg = w;
                self.windows.push(w);
                proof {
                    assert forall|n: Seq<char>| true implies self.window_of(n) == (
                    if find_window(s0, n) is Some {
                        find_window(s0, n)
                    } else if wg.name@ == n {
                        Some(wg.samples@)
                    } else {
                        None
                    }) by {
                        lemma_find_window_push(s0, wg, n);
                    }
                    assert(wg.samples@ =~= Seq::<u64>::empty().push(rate));
                    assert(wg.samples@.drop_last() =~= Seq::<u64>::empty());
                    assert(sum_u64(wg.samples@) == rate) by {
                        assert(wg.samples@.len() == 1);
                        assert(sum_u64(wg.samples@) == sum_u64(wg.samples@.drop_last())
                            + wg.samples@.last());
                        assert(sum_u64(Seq::<u64>::empty()) == 0);
                        assert(wg.samples@.last() == rate);
                    }
                    assert(seq_mean(wg.samples@) == rate);
                    assert(wg.samples@ =~= window_push(
                        Seq::<u64>::empty(),
                        old(self).cap as nat,
                        rate,
                    ));
                }
                rate
            },
        }
    }

    /// Feeds every row's instantaneous rate through its window and returns
    /// the rows with their rate replaced by the smoothed mean. Row names are
    /// unique keys.
    pub fn apply(&mut self, rows: Vec<IndexRate>) -> (out: Vec<IndexRate>)
        requires
            old(self).wf(),
            forall|k1: int, k2: int|
                0 <= k1 < k2 < rows@.len() ==> (#[trigger] rows@[k1]).name@ != (
                #[trigger] rows@[k2]).name@,
        ensures
            final (self).wf(),
            final (self).cap == old(self).cap,
            out@.len() == rows@.len(),
            forall|k: int|
                0 <= k < rows@.len() ==> (#[trigger] out@[k]) == smooth_row(*old(self), rows@[k]),
            forall|k: int|
                0 <= k < rows@.len() ==> final (self).window_of((#[trigger] rows@[k]).name@)
                    == Some(pushed_window(*old(self), rows@[k])),
            forall|n: Seq<char>|
                (forall|k: int| 0 <= k < rows@.len() ==> (#[trigger] rows@[k]).name@ != n)
                    ==> final (self).window_of(n) == old(self).window_of(n),
    {
        let ghost rows0 = rows@;
        let ghost sm0 = *self;
        let mut rows = rows;
        let mut out: Vec<IndexRate> = Vec::new();
        while rows.len() > 0
            invariant
                self.wf(),
                self.cap == sm0.cap,
                sm0.wf(),
                out@.len() + rows@.len() == rows0.len(),
                rows@ =~= rows0.skip(out@.len() as int),
                forall|k1: int, k2: int|
                    0 <= k1 < k2 < rows0.len() ==> (#[trigger] rows0[k1]).name@ != (
                    #[trigger] rows0[k2]).name@,
                forall|k: int|
                    0 <= k < out@.len() ==> (#[trigger] out@[k]) == smooth_row(sm0, rows0[k]),
                forall|k: int|
                    0 <= k < out@.len() ==> self.window_of((#[trigger] rows0[k]).name@) == Some(
                        pushed_window(sm0, rows0[k]),
                    ),
                forall|n: Seq<char>|
                    (forall|k: int| 0 <= k < out@.len() ==> (#[trigger] rows0[k]).name@ != n)
                        ==> self.window_of(n) == sm0.window_of(n),
            decreases rows@.len(),
    {
            let ghost done = out@.len() as int;
            let mut row = rows.remove(0);
            proof {
                assert(rows0.skip(done)[0] == rows0[done]);
                assert(rows0.skip(done).drop_first() =~= rows0.skip(done + 1));
                // the current row's name is untouched so far, so its window
                // is still the original one
                assert(self.window_of(rows0[done].name@) == sm0.window_of(rows0[done].name@));
            }
            let m = self.push_sample(&row.name, row.rate_milli);
            row.rate_milli = m;
            out.push(row);
            proof {
                assert(out@[done] == smooth_row(sm0, rows0[done]));
            }
        }
        out
    }

    /// Drops every window whose index is absent from `rows`; windows of
    /// surviving indices are untouched.
    pub fn prune(&mut self, rows: &Vec<IndexRate>)
        requires
            old(self).wf(),
        ensures
            final (self).wf(),
            final (self).cap == old(self).cap,
            forall|k: int|
                0 <= k < final (self).windows@.len() ==> has_row_named(
                    rows@,
                    (#[trigger] final (self).windows@[k]).name@,
                ),
            forall|n: Seq<char>|
                has_row_named(rows@, n) ==> final (self).window_of(n) == old(self).window_of(n),
    {
        let ghost s0 = self.windows@;
        let mut kept: Vec<RateWindow> = Vec::new();
        let ghost sm0 = *self;
        while self.windows.len() > 0
            invariant
                self.cap == sm0.cap,
                sm0.wf(),
                sm0.windows@ == s0,
                kept@.len() + self.windows@.len() <= s0.len(),
                self.windows@ =~= s0.skip(s0.len() - self.windows@.len()),
                forall|k: int| 0 <= k < kept@.len() ==> has_row_named(rows@, (#[trigger] kept@[k]).name@),
                forall|k: int|
                    0 <= k < kept@.len() ==> 1 <= (#[trigger] kept@[k]).samples@.len() <= sm0.cap,
                forall|k1: int, k2: int|
                    0 <= k1 < k2 < kept@.len() ==> (#[trigger] kept@[k1]).name@ != (
                    #[trigger] kept@[k2]).name@,
                forall|n: Seq<char>|
                    has_row_named(rows@, n) ==> #[trigger] combined_find(kept@, self.windows@, n)
                        == find_window(s0, n),
                forall|k1: int, k2: int|
                    0 <= k1 < kept@.len() && 0 <= k2 < self.windows@.len() ==> (
                    #[trigger] kept@[k1]).name@ != (#[trigger] self.windows@[k2]).name@,
            decreases self.windows@.len(),
        {
            let ghost ks = kept@;
            let ghost ws = self.windows@;
            let w = self.windows.remove(0);
            let keep = has_row_named_exec(rows, &w.name);
            proof {
                assert(ws[0] == w);
                assert(ws.drop_first() =~= self.windows@);
            }
            proof {
                let ghost d = s0.len() - ws.len();
                assert(w == s0[d]);
                assert(sm0.windows@[d] == w);
                assert(1 <= w.samples@.len() <= sm0.cap);
                assert forall|k2: int| 0 <= k2 < self.windows@.len() implies (
                #[trigger] self.windows@[k2]).name@ != w.name@ by {
                    assert(self.windows@[k2] == s0[d + 1 + k2]);
                    assert(sm0.windows@[d + 1 + k2] == s0[d + 1 + k2]);
                }
            }
            if keep {
                kept.push(w);
                proof {
                    let ghost wg = kept@[ks.len() as int];
                    assert forall|n: Seq<char>| has_row_named(rows@, n) implies #[trigger] combined_find(
                        kept@,
                        self.windows@,
                        n,
                    ) == find_window(s0, n) by {
                        lemma_find_window_push(ks, wg, n);
                        assert(combined_find(ks, ws, n) == find_window(s0, n));
                    }
                }
            } else {
                proof {
                    assert forall|n: Seq<char>| has_row_named(rows@, n) implies #[trigger] combined_find(
                        kept@,
                        self.windows@,
                        n,
                    ) == find_window(s0, n) by {
                        assert(combined_find(ks, ws, n) == find_window(s0, n));
                        assert(w.name@ != n);
                    }
                }
            }
        }
        proof {
            assert(self.windows@ =~= Seq::<RateWindow>::empty());
            assert forall|n: Seq<char>| has_row_named(rows@, n) implies find_window(kept@, n)
                == find_window(s0, n) by {
                assert(combined_find(kept@, self.windows@, n) == find_window(s0, n));
            }
        }
        self.windows = kept;
    }
}

/// Whether some row carries the name `n`.
pub open spec fn has_row_named(rows: Seq<IndexRate>, n: Seq<char>) -> bool {
    exists|i: int| 0 <= i < rows.len() && (#[trigger] rows[i]).name@ == n
}

/// Lookup that first consults the kept windows, then the unprocessed ones.
spec fn combined_find(kept: Seq<RateWindow>, rest: Seq<RateWindow>, n: Seq<char>) -> Option<
    Seq<u64>,
> {
    match find_window(kept, n) {
        Some(w) => Some(w),
        None => find_window(rest, n),
    }
}

/// The window of `row`'s index after its instantaneous rate is pushed.
pub open spec fn pushed_window(sm: Smoother, row: IndexRate) -> Seq<u64> {
    window_push(
        match sm.window_of(row.name@) {
            Some(w) => w,
            None => Seq::<u64>::empty(),
        },
        sm.cap as nat,
        row.rate_milli,
    )
}

/// `row` with its instantaneous rate replaced by the smoothed mean.
pub open spec fn smooth_row(sm: Smoother, row: IndexRate) -> IndexRate {
    IndexRate {
        name: row.name,
        doc_count: row.doc_count,
        rate_milli: seq_mean(pushed_window(sm, row)) as u64,
        size_bytes: row.size_bytes,
        health: row.health,
    }
}

/// Whether some row carries the name of `name`, checked by scanning.
fn has_row_named_exec(rows: &Vec<IndexRate>, name: &String) -> (r: bool)
    ensures
        r == has_row_named(rows@, name@),
{
    let mut i: usize = 0;
    while i < rows.len()
        invariant
            i <= rows@.len(),
            forall|j: int| 0 <= j < i ==> (#[trigger] rows@[j]).name@ != name@,
        decreases rows@.len() - i,
    {
        if rows[i].name == *name {
            return true;
        }
        i += 1;
    }
    false
}

} // verus!
