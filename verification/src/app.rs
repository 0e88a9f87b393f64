//! The application controller: central mutable state, the derived view
//! (exclusions, system-index visibility, filter, sort), selection tracking,
//! the single-flight fetch coordinator, and action dispatch.
//!
//! Times are handed in by the caller as milliseconds; the controller never
//! reads a clock itself.

use vstd::prelude::*;

use std::collections::VecDeque;

use crate::actions::Action;
use crate::details::DetailsState;
use crate::es_types::{IndexStatsEntry, StatsResponse};
use crate::filter::FilterState;
use crate::models::{ClusterHealth, IndexRate};
use crate::models::IndexSnapshot;
use crate::rates::{smooth_row, Smoother};
use crate::sort::SortState;
use crate::stats::{dedup_pairs, spec_inst_rate, RateSnapshotStore};
use crate::view_types::Colormap;

verus! {

/// Points kept in the cluster-wide rate trend window.
pub const MAX_HISTORY_POINTS: usize = 60;

/// Smallest allowed refresh interval, in seconds.
pub const MIN_REFRESH_SECS: u64 = 1;

/// Largest allowed refresh interval, in seconds.
pub const MAX_REFRESH_SECS: u64 = 60;

/// Whether a name lies in the reserved hidden namespace (a leading dot).
pub open spec fn is_system_name(n: Seq<char>) -> bool {
    n.len() > 0 && n[0] == '.'
}

/// Clamps a non-negative mathematical integer into `u64`.
pub open spec fn capped_total(x: int) -> u64
    recommends
        x >= 0,
{
    if x > u64::MAX {
        u64::MAX
    } else {
        x as u64
    }
}

/// Re-clamp of the selection against a view of `count` items: an empty view
/// clears it, an index past the end is pulled to the last item, and
/// anything else is left as it is.
pub open spec fn reclamp(sel: Option<usize>, count: int) -> Option<usize> {
    if count == 0 {
        None
    } else {
        match sel {
            None => None,
            Some(i) => if i as int >= count {
                Some((count - 1) as usize)
            } else {
                Some(i)
            },
        }
    }
}

/// Movement of the selection by a signed delta over a view of `count`
/// items: clamped to the ends; from "nothing selected", a positive delta
/// snaps to the first item and any other delta to the last.
pub open spec fn move_sel(sel: Option<usize>, count: int, delta: int) -> Option<usize> {
    if count == 0 {
        None
    } else {
        match sel {
            Some(c) => {
                let t = c + delta;
                if t < 0 {
                    Some(0usize)
                } else if t > count - 1 {
                    Some((count - 1) as usize)
                } else {
                    Some(t as usize)
                }
            },
            None => if delta > 0 {
                Some(0usize)
            } else {
                Some((count - 1) as usize)
            },
        }
    }
}

/// The selection invariant over a view of `count` items: cleared exactly on
/// an empty view, in range otherwise.
pub open spec fn sel_tracks(sel: Option<usize>, count: int) -> bool {
    &&& (sel is None) == (count == 0)
    &&& (sel matches Some(i) ==> (i as int) < count)
}

/// Re-clamping preserves the selection invariant under any view change that
/// does not turn an empty view into a nonempty one. (Growing an empty view
/// leaves nothing selected by design: nothing was highlighted before.)
pub proof fn lemma_reclamp_keeps_selection_invariant(
    sel: Option<usize>,
    pre_count: int,
    post_count: int,
)
    requires
        sel_tracks(sel, pre_count),
        post_count >= 0,
        pre_count == 0 ==> post_count == 0,
    ensures
        sel_tracks(reclamp(sel, post_count), post_count),
{
}

/// Movement establishes the selection invariant on its own: over a
/// nonempty view it always lands on a valid index.
pub proof fn lemma_move_establishes_selection_invariant(
    sel: Option<usize>,
    count: int,
    delta: int,
)
    requires
        sel matches Some(i) ==> (i as int) < count,
        0 <= count <= usize::MAX,
    ensures
        sel_tracks(move_sel(sel, count, delta), count),
{
}

/// Main application state and logic controller.
pub struct App {
    /// The display rows of the last successful poll, already sorted.
    pub indices: Vec<IndexRate>,
    pub running: bool,
    /// Dashboard-level error of the last poll, shown in place of fresh data.
    pub error: Option<String>,
    /// Whether a poll is in flight (single-flight admission control).
    pub loading: bool,
    pub spinner_frame: usize,
    pub refresh_interval_secs: u64,
    pub last_refresh_ms: Option<u64>,
    /// Recent cluster-wide totals, in thousandths of an operation per
    /// second, oldest first; at most `MAX_HISTORY_POINTS` entries.
    pub rate_history: VecDeque<u64>,
    pub es_url: String,
    pub fetch_start_ms: Option<u64>,
    pub last_fetch_duration_ms: Option<u64>,
    pub show_graph: bool,
    pub show_health: bool,
    pub show_indices: bool,
    pub show_system_indices: bool,
    pub paused: bool,
    /// Position within the derived view, not the raw list.
    pub selected_index: Option<usize>,
    /// Names manually hidden from the list and the totals.
    pub excluded_indices: Vec<String>,
    pub show_help_popup: bool,
    pub help_scroll: usize,
    pub colormap: Colormap,
    pub rate_samples: usize,
    pub cluster_health: ClusterHealth,
    pub sort: SortState,
    pub filter: FilterState,
    pub details: DetailsState,
    /// Per-index smoothing windows.
    pub smoother: Smoother,
    /// The previous poll's raw counters.
    pub snapshots: RateSnapshotStore,
}

/// Whether `n` occurs in the exclusion set `exc`.
pub open spec fn excluded_in(exc: Seq<String>, n: Seq<char>) -> bool {
    exists|i: int| 0 <= i < exc.len() && (#[trigger] exc[i])@ == n
}

/// Whether a row belongs to the derived view under the given exclusion
/// set, system-index visibility and filter: not excluded, not a hidden
/// system index, and accepted by the filter.
pub open spec fn row_vis(exc: Seq<String>, show_sys: bool, fil: FilterState, item: IndexRate) -> bool {
    &&& !excluded_in(exc, item.name@)
    &&& show_sys || !is_system_name(item.name@)
    &&& fil.accepts(item)
}

/// Number of visible rows among the first `n` of `rows`.
pub open spec fn count_vis(
    rows: Seq<IndexRate>,
    exc: Seq<String>,
    show_sys: bool,
    fil: FilterState,
    n: int,
) -> int
    decreases n,
{
    if n <= 0 {
        0
    } else {
        count_vis(rows, exc, show_sys, fil, n - 1) + if row_vis(exc, show_sys, fil, rows[n - 1]) {
            1int
        } else {
            0int
        }
    }
}

/// Sum of the smoothed rates of the visible rows among the first `n`.
pub open spec fn rate_vis(
    rows: Seq<IndexRate>,
    exc: Seq<String>,
    show_sys: bool,
    fil: FilterState,
    n: int,
) -> int
    decreases n,
{
    if n <= 0 {
        0
    } else {
        rate_vis(rows, exc, show_sys, fil, n - 1) + if row_vis(exc, show_sys, fil, rows[n - 1]) {
            rows[n - 1].rate_milli as int
        } else {
            0int
        }
    }
}

/// Visible-row counts lie between zero and `n`.
pub proof fn lemma_count_vis_bounds(
    rows: Seq<IndexRate>,
    exc: Seq<String>,
    show_sys: bool,
    fil: FilterState,
    n: int,
)
    ensures
        0 <= count_vis(rows, exc, show_sys, fil, n) <= if n >= 0 {
            n
        } else {
            0
        },
    decreases n,
{
    if n > 0 {
        lemma_count_vis_bounds(rows, exc, show_sys, fil, n - 1);
    }
}

/// Visible-rate sums are non-negative and at most `n * u64::MAX`.
pub proof fn lemma_rate_vis_bounds(
    rows: Seq<IndexRate>,
    exc: Seq<String>,
    show_sys: bool,
    fil: FilterState,
    n: int,
)
    ensures
        0 <= rate_vis(rows, exc, show_sys, fil, n) <= if n >= 0 {
            n * u64::MAX
        } else {
            0
        },
    decreases n,
{
    if n > 0 {
        lemma_rate_vis_bounds(rows, exc, show_sys, fil, n - 1);
    }
}

/// If every row visible under the second view inputs is visible under the
/// first, the second counts at most as many rows.
pub proof fn lemma_count_vis_pointwise_le(
    rows: Seq<IndexRate>,
    exc1: Seq<String>,
    exc2: Seq<String>,
    show_sys: bool,
    fil: FilterState,
    n: int,
)
    requires
        forall|item: IndexRate|
            row_vis(exc2, show_sys, fil, item) ==> row_vis(exc1, show_sys, fil, item),
    ensures
        count_vis(rows, exc2, show_sys, fil, n) <= count_vis(rows, exc1, show_sys, fil, n),
    decreases n,
{
    if n > 0 {
        lemma_count_vis_pointwise_le(rows, exc1, exc2, show_sys, fil, n - 1);
    }
}

/// A view under which no row among the first `n` is visible counts zero.
pub proof fn lemma_count_vis_zero(
    rows: Seq<IndexRate>,
    exc: Seq<String>,
    show_sys: bool,
    fil: FilterState,
    n: int,
)
    requires
        forall|i: int| 0 <= i < n ==> !row_vis(exc, show_sys, fil, #[trigger] rows[i]),
    ensures
        count_vis(rows, exc, show_sys, fil, n) == 0,
    decreases n,
{
    if n > 0 {
        lemma_count_vis_zero(rows, exc, show_sys, fil, n - 1);
    }
}


/// Filters that accept the same items induce the same visible count.
pub proof fn lemma_count_vis_filter_equiv(
    rows: Seq<IndexRate>,
    exc: Seq<String>,
    show_sys: bool,
    f1: FilterState,
    f2: FilterState,
    n: int,
)
    requires
        forall|item: IndexRate| f1.accepts(item) == f2.accepts(item),
    ensures
        count_vis(rows, exc, show_sys, f1, n) == count_vis(rows, exc, show_sys, f2, n),
    decreases n,
{
    if n > 0 {
        lemma_count_vis_filter_equiv(rows, exc, show_sys, f1, f2, n - 1);
    }
}

/// Extending the exclusion set by one name excludes exactly that name more.
pub proof fn lemma_excluded_push(exc: Seq<String>, x: String, n: Seq<char>)
    ensures
        excluded_in(exc.push(x), n) == (excluded_in(exc, n) || x@ == n),
{
    if excluded_in(exc, n) {
        let i = choose|i: int| 0 <= i < exc.len() && (#[trigger] exc[i])@ == n;
        assert(exc.push(x)[i] == exc[i]);
    }
    if x@ == n {
        assert(exc.push(x)[exc.len() as int]@ == n);
    }
    if excluded_in(exc.push(x), n) {
        let i = choose|i: int| 0 <= i < exc.push(x).len() && (#[trigger] exc.push(x)[i])@ == n;
        if i < exc.len() {
            assert(exc[i]@ == n);
        }
    }
}

/// Two distinct visible positions make the count at least two.
pub proof fn lemma_count_vis_at_least_two(
    rows: Seq<IndexRate>,
    exc: Seq<String>,
    show_sys: bool,
    fil: FilterState,
    i: int,
    j: int,
    n: int,
)
    requires
        0 <= i < j < n <= rows.len(),
        row_vis(exc, show_sys, fil, rows[i]),
        row_vis(exc, show_sys, fil, rows[j]),
    ensures
        count_vis(rows, exc, show_sys, fil, n) >= 2,
    decreases n,
{
    if j == n - 1 {
        lemma_count_vis_one_visible(rows, exc, show_sys, fil, i, n - 1);
    } else {
        lemma_count_vis_at_least_two(rows, exc, show_sys, fil, i, j, n - 1);
        lemma_count_vis_bounds(rows, exc, show_sys, fil, n - 1);
    }
}

/// One visible position makes the count from there on at least one.
pub proof fn lemma_count_vis_one_visible(
    rows: Seq<IndexRate>,
    exc: Seq<String>,
    show_sys: bool,
    fil: FilterState,
    i: int,
    n: int,
)
    requires
        0 <= i < n <= rows.len(),
        row_vis(exc, show_sys, fil, rows[i]),
    ensures
        count_vis(rows, exc, show_sys, fil, n) >= 1,
    decreases n,
{
    if i < n - 1 {
        lemma_count_vis_one_visible(rows, exc, show_sys, fil, i, n - 1);
    } else {
        lemma_count_vis_bounds(rows, exc, show_sys, fil, n - 1);
    }
}

impl App {
    /// Whether `n` is manually excluded.
    pub open spec fn spec_excluded(self, n: Seq<char>) -> bool {
        excluded_in(self.excluded_indices@, n)
    }

    /// Whether position `pos` holds the `s`-th row of the derived view.
    pub open spec fn is_nth_visible(self, s: int, pos: int) -> bool {
        &&& 0 <= pos < self.indices@.len()
        &&& self.row_visible(self.indices@[pos])
        &&& self.visible_count_upto(pos) == s
    }

    /// Whether a row belongs to the derived view.
    pub open spec fn row_visible(self, item: IndexRate) -> bool {
        row_vis(self.excluded_indices@, self.show_system_indices, self.filter, item)
    }

    /// Number of visible rows among the first `n`.
    pub open spec fn visible_count_upto(self, n: int) -> int {
        count_vis(self.indices@, self.excluded_indices@, self.show_system_indices, self.filter, n)
    }

    /// Size of the derived view.
    pub open spec fn visible_count(self) -> int {
        self.visible_count_upto(self.indices@.len() as int)
    }

    /// Cluster-wide rate: the sum of the visible rows' smoothed rates, in
    /// thousandths of an operation per second.
    pub open spec fn total_visible_rate(self) -> int {
        rate_vis(
            self.indices@,
            self.excluded_indices@,
            self.show_system_indices,
            self.filter,
            self.indices@.len() as int,
        )
    }

    /// The selection invariant against the current derived view.
    pub open spec fn selection_ok(self) -> bool {
        sel_tracks_weak(self.selected_index, self.visible_count())
    }

    /// Well-formed controller state.
    pub open spec fn wf(self) -> bool {
        &&& self.selection_ok()
        &&& self.rate_history@.len() <= MAX_HISTORY_POINTS
        &&& self.smoother.wf()
        &&& self.smoother.cap == self.rate_samples
        &&& MIN_REFRESH_SECS <= self.refresh_interval_secs <= MAX_REFRESH_SECS
    }

    /// A fresh controller: nothing fetched, nothing selected, every panel
    /// on, system indices hidden, not paused. The refresh interval is
    /// clamped into its bounds and the sample count raised to at least one.
    pub fn new(es_url: String, refresh_secs: u64, colormap: Colormap, rate_samples: usize) -> (r:
        Self)
        ensures
            r.wf(),
            r.indices@.len() == 0,
            r.running,
            r.error is None,
            !r.loading,
            r.spinner_frame == 0,
            r.refresh_interval_secs == clamp_refresh(refresh_secs),
            r.last_refresh_ms is None,
            r.rate_history@.len() == 0,
            r.es_url == es_url,
            r.fetch_start_ms is None,
            r.last_fetch_duration_ms is None,
            r.show_graph && r.show_health && r.show_indices,
            !r.show_system_indices,
            !r.paused,
            r.selected_index is None,
            r.excluded_indices@.len() == 0,
            !r.show_help_popup,
            r.help_scroll == 0,
            r.colormap == colormap,
            r.rate_samples == if rate_samples >= 1 {
                rate_samples
            } else {
                1
            },
            !r.filter.active,
            r.filter.spec_text().len() == 0,
            r.filter.match_all(),
            !r.details.show_popup,
            r.sort.column == crate::view_types::SortColumn::Rate,
            r.sort.order == crate::view_types::SortOrder::Descending,
            r.snapshots.previous is None,
            forall|n: Seq<char>| r.smoother.window_of(n) is None,
    {
        let refresh = if refresh_secs < MIN_REFRESH_SECS {
            MIN_REFRESH_SECS
        } else if refresh_secs > MAX_REFRESH_SECS {
            MAX_REFRESH_SECS
        } else {
            refresh_secs
        };
        let smoother = Smoother::new(rate_samples);
        let cap = smoother.cap;
        App {
            indices: Vec::new(),
            running: true,
            error: None,
            loading: false,
            spinner_frame: 0,
            refresh_interval_secs: refresh,
            last_refresh_ms: None,
            rate_history: VecDeque::new(),
            es_url,
            fetch_start_ms: None,
            last_fetch_duration_ms: None,
            show_graph: true,
            show_health: true,
            show_indices: true,
            show_system_indices: false,
            paused: false,
            selected_index: None,
            excluded_indices: Vec::new(),
            show_help_popup: false,
            help_scroll: 0,
            colormap,
            rate_samples: cap,
            cluster_health: ClusterHealth::default(),
            sort: SortState::default(),
            filter: FilterState::new(),
            details: DetailsState::new(),
            smoother,
            snapshots: RateSnapshotStore::new(),
        }
    }
}


impl App {
    /// Stops the event loop at the end of the current tick.
    pub fn quit(&mut self)
        ensures
            *final (self) == (App { running: false, ..*old(self) }),
    {
        self.running = false;
    }

    /// Whether `name` is manually excluded.
    pub fn is_excluded(&self, name: &String) -> (r: bool)
        ensures
            r == self.spec_excluded(name@),
    {
        let mut i: usize = 0;
        while i < self.excluded_indices.len()
            invariant
                i <= self.excluded_indices@.len(),
                forall|j: int| 0 <= j < i ==> (#[trigger] self.excluded_indices@[j])@ != name@,
            decreases self.excluded_indices@.len() - i,
        {
            if self.excluded_indices[i] == *name {
                return true;
            }
            i += 1;
        }
        false
    }

    /// Whether `item` belongs to the derived view, as `row_visible` says.
    fn row_visible_exec(&self, item: &IndexRate) -> (r: bool)
        ensures
            r == self.row_visible(*item),
    {
        if self.is_excluded(&item.name) {
            return false;
        }
        if !self.show_system_indices {
            let name = item.name.as_str();
            if name.unicode_len() > 0 && name.get_char(0) == '.' {
                return false;
            }
        }
        self.filter.is_match(item)
    }

    /// Size of the derived view.
    pub fn visible_len(&self) -> (n: usize)
        ensures
            n as int == self.visible_count(),
    {
        let mut c: usize = 0;
        let mut i: usize = 0;
        while i < self.indices.len()
            invariant
                i <= self.indices@.len(),
                c as int == self.visible_count_upto(i as int),
                c <= i,
            decreases self.indices@.len() - i,
    {
            if self.row_visible_exec(&self.indices[i]) {
                c += 1;
            }
            i += 1;
            proof {
                lemma_count_vis_bounds(
                    self.indices@,
                    self.excluded_indices@,
                    self.show_system_indices,
                    self.filter,
                    i as int,
                );
            }
        }
        c
    }

    /// Positions of the visible rows within `indices`, in display order:
    /// exactly the rows the derived view shows, each position in range,
    /// strictly increasing, and complete.
    pub fn filtered_indices(&self) -> (r: Vec<usize>)
        ensures
            r@.len() == self.visible_count(),
            forall|k: int|
                0 <= k < r@.len() ==> (#[trigger] r@[k]) < self.indices@.len()
                    && self.row_visible(self.indices@[r@[k] as int]),
            forall|k1: int, k2: int| 0 <= k1 < k2 < r@.len() ==> r@[k1] < r@[k2],
            forall|i: int|
                0 <= i < self.indices@.len() && self.row_visible(#[trigger] self.indices@[i])
                    ==> exists|k: int| 0 <= k < r@.len() && r@[k] == i,
            forall|k: int|
                0 <= k < r@.len() ==> self.visible_count_upto((#[trigger] r@[k]) as int) == k,
    {
        let mut r: Vec<usize> = Vec::new();
        let mut i: usize = 0;
        while i < self.indices.len()
            invariant
                i <= self.indices@.len(),
                r@.len() == self.visible_count_upto(i as int),
                forall|k: int|
                    0 <= k < r@.len() ==> (#[trigger] r@[k]) < i && self.row_visible(
                        self.indices@[r@[k] as int],
                    ),
                forall|k1: int, k2: int| 0 <= k1 < k2 < r@.len() ==> r@[k1] < r@[k2],
                forall|j: int|
                    0 <= j < i && self.row_visible(#[trigger] self.indices@[j]) ==> exists|k: int|
                        0 <= k < r@.len() && r@[k] == j,
                forall|k: int|
                    0 <= k < r@.len() ==> self.visible_count_upto((#[trigger] r@[k]) as int) == k,
            decreases self.indices@.len() - i,
        {
            let ghost prev = r@;
            let vis = self.row_visible_exec(&self.indices[i]);
            if vis {
                r.push(i);
            }
            proof {
                assert forall|j: int|
                    0 <= j < i + 1 && self.row_visible(#[trigger] self.indices@[j]) implies exists|
                    k: int,
                |
                    0 <= k < r@.len() && r@[k] == j by {
                    if j == i {
                        assert(r@[r@.len() - 1] == i);
                    } else {
                        assert(exists|k: int| 0 <= k < prev.len() && prev[k] == j);
                        let k0 = choose|k: int| 0 <= k < prev.len() && prev[k] == j;
                        assert(0 <= k0 < r@.len() && r@[k0] == j);
                    }
                }
            }
            i += 1;
        }
        r
    }

    /// The total indexing rate across the visible rows, in thousandths of
    /// an operation per second, saturating at the machine limit.
    pub fn total_cluster_rate(&self) -> (r: u64)
        ensures
            r == capped_total(self.total_visible_rate()),
    {
        let mut acc: u128 = 0;
        let mut i: usize = 0;
        while i < self.indices.len()
            invariant
                i <= self.indices@.len(),
                acc as int == rate_vis(
                    self.indices@,
                    self.excluded_indices@,
                    self.show_system_indices,
                    self.filter,
                    i as int,
                ),
            decreases self.indices@.len() - i,
        {
            proof {
                lemma_rate_vis_bounds(
                    self.indices@,
                    self.excluded_indices@,
                    self.show_system_indices,
                    self.filter,
                    i as int,
                );
            }
            if self.row_visible_exec(&self.indices[i]) {
                acc = acc + (self.indices[i].rate_milli as u128);
            }
            i += 1;
        }
        if acc > u64::MAX as u128 {
            u64::MAX
        } else {
            acc as u64
        }
    }

    /// Pulls the selection back inside the current derived view.
    fn reclamp_selection(&mut self)
        ensures
            *final (self) == (App {
                selected_index: reclamp(old(self).selected_index, old(self).visible_count()),
                ..*old(self)
            }),
            sel_tracks_weak(final (self).selected_index, final (self).visible_count()),
    {
        let count = self.visible_len();
        match self.selected_index {
            None => {
                self.selected_index = None;
            },
            Some(i) => {
                if count == 0 {
                    self.selected_index = None;
                } else if i >= count {
                    self.selected_index = Some(count - 1);
                }
            },
        }
    }

    /// Moves the selection by `delta` over the derived view, clamping to
    /// the ends; from "nothing selected" a positive delta lands on the
    /// first item and any other on the last.
    fn move_selection(&mut self, delta: i32)
        requires
            old(self).wf(),
        ensures
            *final (self) == (App {
                selected_index: move_sel(
                    old(self).selected_index,
                    old(self).visible_count(),
                    delta as int,
                ),
                ..*old(self)
            }),
            final (self).wf(),
            sel_tracks(final (self).selected_index, final (self).visible_count()),
    {
        proof {
            lemma_count_vis_bounds(
                self.indices@,
                self.excluded_indices@,
                self.show_system_indices,
                self.filter,
                self.indices@.len() as int,
            );
        }
        let count = self.visible_len();
        if count == 0 {
            self.selected_index = None;
        } else {
            let last = count - 1;
            let next: usize = match self.selected_index {
                Some(current) => {
                    if delta >= 0 {
                        let up = delta as usize;
                        if current <= last && up <= last - current {
                            current + up
                        } else {
                            last
                        }
                    } else {
                        let down = (-(delta as i64)) as usize;
                        if current >= down {
                            current - down
                        } else {
                            0
                        }
                    }
                },
                None => {
                    if delta > 0 {
                        0
                    } else {
                        last
                    }
                },
            };
            self.selected_index = Some(next);
        }
        proof {
            lemma_move_establishes_selection_invariant(
                old(self).selected_index,
                old(self).visible_count(),
                delta as int,
            );
        }
    }

    /// One row up.
    pub fn select_up(&mut self)
        requires
            old(self).wf(),
        ensures
            *final (self) == (App {
                selected_index: move_sel(old(self).selected_index, old(self).visible_count(), -1),
                ..*old(self)
            }),
            final (self).wf(),
            sel_tracks(final (self).selected_index, final (self).visible_count()),
    {
        self.move_selection(-1);
    }

    /// One row down.
    pub fn select_down(&mut self)
        requires
            old(self).wf(),
        ensures
            *final (self) == (App {
                selected_index: move_sel(old(self).selected_index, old(self).visible_count(), 1),
                ..*old(self)
            }),
            final (self).wf(),
            sel_tracks(final (self).selected_index, final (self).visible_count()),
    {
        self.move_selection(1);
    }

    /// One page up.
    pub fn select_page_up(&mut self, page_size: usize)
        requires
            old(self).wf(),
            page_size <= i32::MAX,
        ensures
            *final (self) == (App {
                selected_index: move_sel(
                    old(self).selected_index,
                    old(self).visible_count(),
                    -(page_size as int),
                ),
                ..*old(self)
            }),
            final (self).wf(),
            sel_tracks(final (self).selected_index, final (self).visible_count()),
    {
        self.move_selection(-(page_size as i32));
    }

    /// One page down.
    pub fn select_page_down(&mut self, page_size: usize)
        requires
            old(self).wf(),
            page_size <= i32::MAX,
        ensures
            *final (self) == (App {
                selected_index: move_sel(
                    old(self).selected_index,
                    old(self).visible_count(),
                    page_size as int,
                ),
                ..*old(self)
            }),
            final (self).wf(),
            sel_tracks(final (self).selected_index, final (self).visible_count()),
    {
        self.move_selection(page_size as i32);
    }

    /// Jump to the first visible row; a no-op on an empty view.
    pub fn select_first(&mut self)
        requires
            old(self).wf(),
        ensures
            *final (self) == (App {
                selected_index: if old(self).visible_count() > 0 {
                    Some(0usize)
                } else {
                    old(self).selected_index
                },
                ..*old(self)
            }),
            final (self).wf(),
            sel_tracks(final (self).selected_index, final (self).visible_count()),
    {
        let count = self.visible_len();
        if count > 0 {
            self.selected_index = Some(0);
        }
    }

    /// Jump to the last visible row; a no-op on an empty view.
    pub fn select_last(&mut self)
        requires
            old(self).wf(),
        ensures
            *final (self) == (App {
                selected_index: if old(self).visible_count() > 0 {
                    Some((old(self).visible_count() - 1) as usize)
                } else {
                    old(self).selected_index
                },
                ..*old(self)
            }),
            final (self).wf(),
            sel_tracks(final (self).selected_index, final (self).visible_count()),
    {
        proof {
            lemma_count_vis_bounds(
                self.indices@,
                self.excluded_indices@,
                self.show_system_indices,
                self.filter,
                self.indices@.len() as int,
            );
        }
        let count = self.visible_len();
        if count > 0 {
            self.selected_index = Some(count - 1);
        }
    }

    /// Advance the spinner animation while a poll is in flight.
    pub fn tick_spinner(&mut self)
        ensures
            *final (self) == (App {
                spinner_frame: if old(self).loading {
                    ((old(self).spinner_frame % 10 + 1) % 10) as usize
                } else {
                    old(self).spinner_frame
                },
                ..*old(self)
            }),
    {
        if self.loading {
            self.spinner_frame = (self.spinner_frame % 10 + 1) % 10;
        }
    }

    /// Shorten the refresh interval by one second, down to the minimum.
    pub fn increase_refresh_rate(&mut self)
        ensures
            *final (self) == (App {
                refresh_interval_secs: if old(self).refresh_interval_secs > MIN_REFRESH_SECS {
                    (old(self).refresh_interval_secs - 1) as u64
                } else {
                    old(self).refresh_interval_secs
                },
                ..*old(self)
            }),
    {
        if self.refresh_interval_secs > MIN_REFRESH_SECS {
            self.refresh_interval_secs = self.refresh_interval_secs - 1;
        }
    }

    /// Lengthen the refresh interval by one second, up to the maximum.
    pub fn decrease_refresh_rate(&mut self)
        ensures
            *final (self) == (App {
                refresh_interval_secs: if old(self).refresh_interval_secs < MAX_REFRESH_SECS {
                    (old(self).refresh_interval_secs + 1) as u64
                } else {
                    old(self).refresh_interval_secs
                },
                ..*old(self)
            }),
    {
        if self.refresh_interval_secs < MAX_REFRESH_SECS {
            self.refresh_interval_secs = self.refresh_interval_secs + 1;
        }
    }

    /// The trend window as a plain vector, oldest first.
    pub fn rate_history_vec(&self) -> (r: Vec<u64>)
        ensures
            r@ == self.rate_history@,
    {
        let mut r: Vec<u64> = Vec::new();
        let mut i: usize = 0;
        proof {
            assert(self.rate_history@.subrange(0, 0) =~= Seq::<u64>::empty());
        }
        while i < self.rate_history.len()
            invariant
                i <= self.rate_history@.len(),
                r@ == self.rate_history@.subrange(0, i as int),
            decreases self.rate_history@.len() - i,
        {
            r.push(self.rate_history[i]);
            proof {
                assert(self.rate_history@.subrange(0, i as int).push(self.rate_history@[i as int])
                    =~= self.rate_history@.subrange(0, i as int + 1));
            }
            i += 1;
        }
        proof {
            assert(self.rate_history@.subrange(0, self.rate_history@.len() as int)
                =~= self.rate_history@);
        }
        r
    }

    /// Appends one cluster-wide total to the trend window, evicting the
    /// oldest point once the window holds `MAX_HISTORY_POINTS` entries, so
    /// that it never exceeds that size.
    fn push_history(&mut self, total: u64)
        requires
            old(self).rate_history@.len() <= MAX_HISTORY_POINTS,
        ensures
            *final (self) == (App {
                rate_history: final (self).rate_history,
                ..*old(self)
            }),
            final (self).rate_history@ == crate::rates::window_push(
                old(self).rate_history@,
                MAX_HISTORY_POINTS as nat,
                total,
            ),
            final (self).rate_history@.len() <= MAX_HISTORY_POINTS,
    {
        if self.rate_history.len() >= MAX_HISTORY_POINTS {
            let _ = self.rate_history.pop_front();
        }
        self.rate_history.push_back(total);
    }

    /// Whether the schedule calls for a new poll: never while paused, and
    /// otherwise once no poll has completed yet or the refresh interval has
    /// elapsed since the last completion.
    pub fn should_refresh(&self, now_ms: u64) -> (r: bool)
        ensures
            r == (!self.paused && match self.last_refresh_ms {
                None => true,
                Some(t) => now_ms >= t + self.refresh_interval_secs * 1000,
            }),
    {
        if self.paused {
            return false;
        }
        match self.last_refresh_ms {
            None => true,
            Some(t) => {
                if self.refresh_interval_secs > u64::MAX / 1000 {
                    false
                } else {
                    now_ms >= t && now_ms - t >= self.refresh_interval_secs * 1000
                }
            },
        }
    }

    /// Admission control for the periodic poll: a no-op while one is in
    /// flight, else marks the poll started at `now_ms`. The caller spawns
    /// the background fetch exactly when this returns true.
    pub fn start_fetch(&mut self, now_ms: u64) -> (started: bool)
        ensures
            old(self).loading ==> !started && *final (self) == *old(self),
            !old(self).loading ==> started && *final (self) == (App {
                loading: true,
                fetch_start_ms: Some(now_ms),
                ..*old(self)
            }),
    {
        if self.loading {
            return false;
        }
        self.loading = true;
        self.fetch_start_ms = Some(now_ms);
        true
    }

    /// Show or hide the trend chart.
    pub fn toggle_graph(&mut self)
        ensures
            *final (self) == (App { show_graph: !old(self).show_graph, ..*old(self) }),
    {
        self.show_graph = !self.show_graph;
    }

    /// Show or hide the cluster health panel.
    pub fn toggle_health(&mut self)
        ensures
            *final (self) == (App { show_health: !old(self).show_health, ..*old(self) }),
    {
        self.show_health = !self.show_health;
    }

    /// Show or hide the index table.
    pub fn toggle_indices(&mut self)
        ensures
            *final (self) == (App { show_indices: !old(self).show_indices, ..*old(self) }),
    {
        self.show_indices = !self.show_indices;
    }

    /// Show or hide system indices in the derived view, re-clamping the
    /// selection against the reshaped view.
    pub fn toggle_system_indices(&mut self)
        requires
            old(self).wf(),
        ensures
            ({
                let mid = App { show_system_indices: !old(self).show_system_indices, ..*old(self) };
                *final (self) == (App {
                    selected_index: reclamp(old(self).selected_index, mid.visible_count()),
                    ..mid
                })
            }),
            final (self).wf(),
    {
        self.show_system_indices = !self.show_system_indices;
        self.reclamp_selection();
    }

    /// Pause or resume the refresh schedule.
    pub fn toggle_pause(&mut self)
        ensures
            *final (self) == (App { paused: !old(self).paused, ..*old(self) }),
    {
        self.paused = !self.paused;
    }

    /// Open the help overlay at the top, or close it.
    pub fn toggle_help_popup(&mut self)
        ensures
            *final (self) == (App {
                show_help_popup: !old(self).show_help_popup,
                help_scroll: if !old(self).show_help_popup {
                    0usize
                } else {
                    old(self).help_scroll
                },
                ..*old(self)
            }),
    {
        self.show_help_popup = !self.show_help_popup;
        if self.show_help_popup {
            self.help_scroll = 0;
        }
    }

    /// One help line up; stops at zero.
    pub fn help_scroll_up(&mut self)
        ensures
            *final (self) == (App {
                help_scroll: if old(self).help_scroll > 0 {
                    (old(self).help_scroll - 1) as usize
                } else {
                    0usize
                },
                ..*old(self)
            }),
    {
        if self.help_scroll > 0 {
            self.help_scroll = self.help_scroll - 1;
        }
    }

    /// One help line down; saturates at the machine limit.
    pub fn help_scroll_down(&mut self)
        ensures
            *final (self) == (App {
                help_scroll: if old(self).help_scroll < usize::MAX {
                    (old(self).help_scroll + 1) as usize
                } else {
                    usize::MAX
                },
                ..*old(self)
            }),
    {
        if self.help_scroll < usize::MAX {
            self.help_scroll = self.help_scroll + 1;
        }
    }

    /// Cycle to the next colormap.
    pub fn next_colormap(&mut self)
        ensures
            *final (self) == (App { colormap: old(self).colormap.spec_next(), ..*old(self) }),
    {
        self.colormap = self.colormap.next();
    }

    /// Cycle to the previous colormap.
    pub fn prev_colormap(&mut self)
        ensures
            *final (self) == (App { colormap: old(self).colormap.spec_prev(), ..*old(self) }),
    {
        self.colormap = self.colormap.prev();
    }

    /// Number of manually excluded names.
    pub fn excluded_count(&self) -> (n: usize)
        ensures
            n == self.excluded_indices@.len(),
    {
        self.excluded_indices.len()
    }

    /// Forget every manual exclusion. The view can only grow, so a valid
    /// selection stays valid.
    pub fn clear_exclusions(&mut self)
        requires
            old(self).wf(),
        ensures
            ({
                let mid = App { excluded_indices: final (self).excluded_indices, ..*old(self) };
                *final (self) == (App {
                    selected_index: reclamp(old(self).selected_index, mid.visible_count()),
                    ..mid
                })
            }),
            final (self).excluded_indices@.len() == 0,
            final (self).wf(),
    {
        self.excluded_indices.clear();
        self.reclamp_selection();
    }

    /// Begin editing the filter line.
    pub fn enter_filter_mode(&mut self)
        ensures
            *final (self) == (App { filter: final (self).filter, ..*old(self) }),
            final (self).filter.active,
            crate::filter::unchanged_but_active(old(self).filter, final (self).filter),
    {
        self.filter.enter();
    }

    /// Stop editing the filter line.
    pub fn exit_filter_mode(&mut self)
        ensures
            *final (self) == (App { filter: final (self).filter, ..*old(self) }),
            !final (self).filter.active,
            crate::filter::unchanged_but_active(old(self).filter, final (self).filter),
    {
        self.filter.exit();
    }

    /// Drop the filter text and predicate and leave editing mode; the view
    /// can only grow, so the selection is only re-clamped formally.
    pub fn clear_filter(&mut self)
        requires
            old(self).wf(),
        ensures
            ({
                let mid = App { filter: final (self).filter, ..*old(self) };
                *final (self) == (App {
                    selected_index: reclamp(old(self).selected_index, mid.visible_count()),
                    ..mid
                })
            }),
            !final (self).filter.active,
            final (self).filter.spec_text().len() == 0,
            final (self).filter.error is None,
            final (self).filter.match_all(),
            final (self).wf(),
    {
        self.filter.clear();
        self.reclamp_selection();
    }

    /// Replace the filter text (one keystroke's worth of editing) and
    /// recompile it, then re-clamp the selection against the reshaped view.
    pub fn set_filter_text(&mut self, t: String)
        requires
            old(self).wf(),
        ensures
            final (self).filter.spec_text() == t@,
            final (self).filter.active == old(self).filter.active,
            t@.len() == 0 ==> final (self).filter.match_all() && final (self).filter.error
                is None,
            t@.len() > 0 && crate::filter::compiles_ok(t@) ==> {
                &&& !final (self).filter.match_all()
                &&& final (self).filter.error is None
                &&& forall|item: IndexRate|
                    final (self).filter.accepts(item) == crate::filter::query_matches(
                        t@,
                        item.name@,
                        item.doc_count as int,
                        item.size_bytes as int,
                        item.health@,
                        item.rate_milli as int,
                    )
            },
            t@.len() > 0 && !crate::filter::compiles_ok(t@) ==> final (self).filter.match_all()
                && final (self).filter.error is Some,
            ({
                let mid = App { filter: final (self).filter, ..*old(self) };
                *final (self) == (App {
                    selected_index: reclamp(old(self).selected_index, mid.visible_count()),
                    ..mid
                })
            }),
            final (self).wf(),
    {
        self.filter.set_text(t);
        self.filter.recompile();
        self.reclamp_selection();
    }

    /// Re-sort the rows under the current sort setting; membership of the
    /// view is unchanged, and the selection is re-clamped against it.
    fn resort(&mut self)
        requires
            old(self).wf(),
        ensures
            ({
                let mid = App { indices: final (self).indices, ..*old(self) };
                *final (self) == (App {
                    selected_index: reclamp(old(self).selected_index, mid.visible_count()),
                    ..mid
                })
            }),
            final (self).indices@.to_multiset() == old(self).indices@.to_multiset(),
            final (self).indices@.len() == old(self).indices@.len(),
            crate::sort::sorted_rows(
                old(self).sort.column,
                old(self).sort.order,
                final (self).indices@,
            ),
            final (self).indices@ == crate::sort::sort_rows_spec(
                old(self).sort.column,
                old(self).sort.order,
                old(self).indices@,
            ),
            final (self).wf(),
    {
        self.sort.sort(&mut self.indices);
        self.reclamp_selection();
    }

    /// Select the next sort column and re-sort.
    pub fn next_column(&mut self)
        requires
            old(self).wf(),
        ensures
            final (self).sort.column == old(self).sort.column.spec_next(),
            final (self).sort.order == old(self).sort.order,
            final (self).indices@.to_multiset() == old(self).indices@.to_multiset(),
            crate::sort::sorted_rows(
                final (self).sort.column,
                final (self).sort.order,
                final (self).indices@,
            ),
            final (self).indices@ == crate::sort::sort_rows_spec(
                final (self).sort.column,
                final (self).sort.order,
                old(self).indices@,
            ),
            final (self).wf(),
            same_but_sort_view(*old(self), *final (self)),
    {
        self.sort.next_column();
        self.resort();
    }

    /// Select the previous sort column and re-sort.
    pub fn prev_column(&mut self)
        requires
            old(self).wf(),
        ensures
            final (self).sort.column == old(self).sort.column.spec_prev(),
            final (self).sort.order == old(self).sort.order,
            final (self).indices@.to_multiset() == old(self).indices@.to_multiset(),
            crate::sort::sorted_rows(
                final (self).sort.column,
                final (self).sort.order,
                final (self).indices@,
            ),
            final (self).indices@ == crate::sort::sort_rows_spec(
                final (self).sort.column,
                final (self).sort.order,
                old(self).indices@,
            ),
            final (self).wf(),
            same_but_sort_view(*old(self), *final (self)),
    {
        self.sort.prev_column();
        self.resort();
    }

    /// Flip the sort direction and re-sort.
    pub fn toggle_sort_order(&mut self)
        requires
            old(self).wf(),
        ensures
            final (self).sort.order == old(self).sort.order.spec_toggle(),
            final (self).sort.column == old(self).sort.column,
            final (self).indices@.to_multiset() == old(self).indices@.to_multiset(),
            crate::sort::sorted_rows(
                final (self).sort.column,
                final (self).sort.order,
                final (self).indices@,
            ),
            final (self).indices@ == crate::sort::sort_rows_spec(
                final (self).sort.column,
                final (self).sort.order,
                old(self).indices@,
            ),
            final (self).wf(),
            same_but_sort_view(*old(self), *final (self)),
    {
        self.sort.toggle_order();
        self.resort();
    }

    /// Close the detail overlay.
    pub fn close_details_popup(&mut self)
        ensures
            *final (self) == (App { details: final (self).details, ..*old(self) }),
            !final (self).details.show_popup,
            final (self).details.data is None,
            !final (self).details.loading,
            final (self).details.error is None,
            final (self).details.scroll == 0,
    {
        self.details.close();
    }

    /// Apply one drain of the detail mailbox, as `DetailsState::poll` says.
    pub fn poll_details_result(&mut self, event: crate::details::DetailsEvent)
        ensures
            *final (self) == (App { details: final (self).details, ..*old(self) }),
            crate::details::poll_rel(old(self).details, final (self).details, event),
    {
        self.details.poll(event);
    }

    /// One detail line up.
    pub fn details_scroll_up(&mut self)
        ensures
            *final (self) == (App { details: final (self).details, ..*old(self) }),
            final (self).details.scroll == if old(self).details.scroll > 0 {
                (old(self).details.scroll - 1) as usize
            } else {
                0usize
            },
            crate::details::scroll_only_changed(old(self).details, final (self).details),
    {
        self.details.scroll_up();
    }

    /// One detail line down.
    pub fn details_scroll_down(&mut self)
        ensures
            *final (self) == (App { details: final (self).details, ..*old(self) }),
            final (self).details.scroll == if old(self).details.scroll < usize::MAX {
                (old(self).details.scroll + 1) as usize
            } else {
                usize::MAX
            },
            crate::details::scroll_only_changed(old(self).details, final (self).details),
    {
        self.details.scroll_down();
    }

    /// One detail page up.
    pub fn details_scroll_page_up(&mut self, page_size: usize)
        ensures
            *final (self) == (App { details: final (self).details, ..*old(self) }),
            final (self).details.scroll == if old(self).details.scroll >= page_size {
                (old(self).details.scroll - page_size) as usize
            } else {
                0usize
            },
            crate::details::scroll_only_changed(old(self).details, final (self).details),
    {
        self.details.scroll_page_up(page_size);
    }

    /// One detail page down.
    pub fn details_scroll_page_down(&mut self, page_size: usize)
        ensures
            *final (self) == (App { details: final (self).details, ..*old(self) }),
            final (self).details.scroll == if old(self).details.scroll as int + page_size as int
                <= usize::MAX as int {
                (old(self).details.scroll + page_size) as usize
            } else {
                usize::MAX
            },
            crate::details::scroll_only_changed(old(self).details, final (self).details),
    {
        self.details.scroll_page_down(page_size);
    }
}

impl App {
    /// Excludes the currently selected row's name from the view and the
    /// totals, then re-clamps the selection against the shrunken view: if
    /// the view becomes empty nothing is selected, if the old position fell
    /// off the end it is pulled to the new last row, else it stays. With
    /// nothing selected this is a no-op. (A visible row is never already
    /// excluded, so the toggle always adds.)
    pub fn toggle_exclude_selected(&mut self)
        requires
            old(self).wf(),
        ensures
            final (self).wf(),
            old(self).selected_index is None ==> *final (self) == *old(self),
            old(self).selected_index matches Some(s) ==> {
                &&& final (self).excluded_indices@.len() == old(self).excluded_indices@.len() + 1
                &&& final (self).excluded_indices@.drop_last() == old(self).excluded_indices@
                &&& exists|pos: int|
                    #[trigger] old(self).is_nth_visible(s as int, pos) && (final (
                    self
                    ).excluded_indices@.last())@ == old(self).indices@[pos].name@
                &&& ({
                    let mid = App {
                        excluded_indices: final (self).excluded_indices,
                        ..*old(self)
                    };
                    *final (self) == (App {
                        selected_index: reclamp(Some(s), mid.visible_count()),
                        ..mid
                    })
                })
                &&& final (self).visible_count() <= old(self).visible_count()
                &&& (old(self).visible_count() == 1 ==> final (self).selected_index is None
                    && final (self).visible_count() == 0)
            },
            sel_tracks(old(self).selected_index, old(self).visible_count()) ==> sel_tracks(
                final (self).selected_index,
                final (self).visible_count(),
            ),
    {
        let sel = self.selected_index;
        if let Some(selected) = sel {
            let filtered = self.filtered_indices();
            let pos = filtered[selected];
            let name = self.indices[pos].name.clone();
            let ghost pre = *self;
            let ghost ng = name@;
            let ghost posg = pos as int;
            self.excluded_indices.push(name);
            proof {
                assert(self.excluded_indices@.drop_last() =~= pre.excluded_indices@);
                assert forall|item: IndexRate| self.row_visible(item) implies pre.row_visible(
                    item,
                ) by {
                    lemma_excluded_push(pre.excluded_indices@, pre.indices@[posg].name, item.name@);
                }
                lemma_count_vis_pointwise_le(
                    pre.indices@,
                    pre.excluded_indices@,
                    self.excluded_indices@,
                    pre.show_system_indices,
                    pre.filter,
                    pre.indices@.len() as int,
                );
                if pre.visible_count() == 1 {
                    assert forall|i: int|
                        0 <= i < self.indices@.len() implies !self.row_visible(
                        #[trigger] self.indices@[i],
                    ) by {
                        if self.row_visible(self.indices@[i]) {
                            lemma_excluded_push(
                                pre.excluded_indices@,
                                pre.indices@[posg].name,
                                self.indices@[i].name@,
                            );
                            assert(self.indices@[i].name@ != ng);
                            assert(pre.row_visible(pre.indices@[i]));
                            assert(i != posg);
                            if i < posg {
                                lemma_count_vis_at_least_two(
                                    pre.indices@,
                                    pre.excluded_indices@,
                                    pre.show_system_indices,
                                    pre.filter,
                                    i,
                                    posg,
                                    pre.indices@.len() as int,
                                );
                            } else {
                                lemma_count_vis_at_least_two(
                                    pre.indices@,
                                    pre.excluded_indices@,
                                    pre.show_system_indices,
                                    pre.filter,
                                    posg,
                                    i,
                                    pre.indices@.len() as int,
                                );
                            }
                        }
                    }
                    lemma_count_vis_zero(
                        self.indices@,
                        self.excluded_indices@,
                        self.show_system_indices,
                        self.filter,
                        self.indices@.len() as int,
                    );
                }
            }
            self.reclamp_selection();
            proof {
                assert(old(self).is_nth_visible(selected as int, posg));
                assert((self.excluded_indices@.last())@ == old(self).indices@[posg].name@);
                if sel_tracks(old(self).selected_index, old(self).visible_count()) {
                    lemma_reclamp_keeps_selection_invariant(
                        Some(selected),
                        old(self).visible_count(),
                        self.visible_count(),
                    );
                }
            }
        }
    }

    /// Opens the detail overlay for the selected row and hands back the
    /// name, document count, smoothed rate and size that the background
    /// fetch needs; with nothing selected, a no-op returning nothing.
    pub fn show_index_details(&mut self) -> (req: Option<(String, u64, u64, u64)>)
        requires
            old(self).wf(),
        ensures
            final (self).wf(),
            old(self).selected_index is None ==> req is None && *final (self) == *old(self),
            old(self).selected_index matches Some(s) ==> {
                &&& *final (self) == (App { details: final (self).details, ..*old(self) })
                &&& final (self).details.show_popup
                &&& final (self).details.loading
                &&& final (self).details.data is None
                &&& final (self).details.error is None
                &&& final (self).details.scroll == 0
                &&& exists|pos: int|
                    #[trigger] old(self).is_nth_visible(s as int, pos) && req == Some(
                        (
                            old(self).indices@[pos].name,
                            old(self).indices@[pos].doc_count,
                            old(self).indices@[pos].rate_milli,
                            old(self).indices@[pos].size_bytes,
                        ),
                    )
            },
    {
        let sel = self.selected_index;
        if let Some(selected) = sel {
            let filtered = self.filtered_indices();
            let pos = filtered[selected];
            let row = &self.indices[pos];
            let name = row.name.clone();
            let doc_count = row.doc_count;
            let rate_milli = row.rate_milli;
            let size_bytes = row.size_bytes;
            proof {
                assert(old(self).is_nth_visible(selected as int, pos as int));
            }
            self.details.fetch();
            Some((name, doc_count, rate_milli, size_bytes))
        } else {
            None
        }
    }
}

/// What one drain of the poll mailbox found.
pub enum FetchEvent {
    /// A delivered poll result: the raw statistics and health responses as
    /// a unit, or a dashboard-level error message.
    Ready(Result<(StatsResponse, ClusterHealth), String>),
    /// Nothing delivered yet.
    Empty,
    /// The fetch task died without sending.
    Disconnected,
}

/// The statistics response as snapshot pairs, entry by entry.
pub open spec fn pairs_of_stats(resp: StatsResponse) -> Seq<(String, IndexSnapshot)> {
    resp.indices@.map(
        |i: int, e: (String, IndexStatsEntry)|
            (
                e.0,
                IndexSnapshot {
                    doc_count: e.1.primaries.docs.count,
                    index_total: e.1.primaries.indexing.index_total,
                    size_bytes: e.1.primaries.store.size_in_bytes,
                    health: e.1.health,
                },
            ),
    )
}

/// The display rows a successful poll produces, before sorting: the
/// response's entries with duplicate names dropped, each carrying the
/// instantaneous rate against the previous snapshot, smoothed through its
/// window.
pub open spec fn polled_rows(pre: App, stats: StatsResponse, now_ms: u64) -> Seq<IndexRate> {
    dedup_pairs(pairs_of_stats(stats)).map(
        |i: int, p: (String, IndexSnapshot)|
            smooth_row(
                pre.smoother,
                IndexRate {
                    name: p.0,
                    doc_count: p.1.doc_count,
                    rate_milli: spec_inst_rate(pre.snapshots, p.0@, p.1.index_total, now_ms),
                    size_bytes: p.1.size_bytes,
                    health: p.1.health,
                },
            ),
    )
}

impl App {
    /// Applies one drain of the poll mailbox. An empty mailbox changes
    /// nothing. A delivered success replaces the rows (deduplicated,
    /// re-rated against the previous snapshot, smoothed, and sorted under
    /// the current setting), replaces the health summary, clears the error,
    /// stores the new snapshot, discards the windows of vanished indices,
    /// appends the visible total to the bounded trend window, and re-clamps
    /// the selection. A delivered failure or a dead task only records the
    /// error: all previously displayed data stays untouched.
    #[verifier::rlimit(60)]
    pub fn poll_fetch_result(&mut self, event: FetchEvent, now_ms: u64)
        requires
            old(self).wf(),
        ensures
            final (self).wf(),
            match event {
                FetchEvent::Empty => *final (self) == *old(self),
                FetchEvent::Disconnected => {
                    &&& *final (self) == (App {
                        loading: false,
                        error: final (self).error,
                        ..*old(self)
                    })
                    &&& final (self).error matches Some(m) && m@ == "Fetch task disconnected"@
                },
                FetchEvent::Ready(res) => {
                    let duration = match old(self).fetch_start_ms {
                        Some(st) => Some(
                            if now_ms >= st {
                                (now_ms - st) as u64
                            } else {
                                0u64
                            },
                        ),
                        None => old(self).last_fetch_duration_ms,
                    };
                    match res {
                        Ok((stats, health)) => {
                            &&& *final (self) == (App {
                                loading: false,
                                last_refresh_ms: Some(now_ms),
                                fetch_start_ms: None,
                                last_fetch_duration_ms: duration,
                                error: None,
                                indices: final (self).indices,
                                cluster_health: health,
                                rate_history: final (self).rate_history,
                                smoother: final (self).smoother,
                                snapshots: final (self).snapshots,
                                selected_index: final (self).selected_index,
                                ..*old(self)
                            })
                            &&& final (self).indices@.to_multiset() == polled_rows(
                                *old(self),
                                stats,
                                now_ms,
                            ).to_multiset()
                            &&& final (self).indices@.len() == polled_rows(
                                *old(self),
                                stats,
                                now_ms,
                            ).len()
                            &&& crate::sort::sorted_rows(
                                old(self).sort.column,
                                old(self).sort.order,
                                final (self).indices@,
                            )
                            &&& final (self).indices@ == crate::sort::sort_rows_spec(
                                old(self).sort.column,
                                old(self).sort.order,
                                polled_rows(*old(self), stats, now_ms),
                            )
                            &&& (final (self).snapshots.previous matches Some(pv) && pv.0 == now_ms
                                && pv.1@ == dedup_pairs(pairs_of_stats(stats)))
                            &&& final (self).rate_history@ == crate::rates::window_push(
                                old(self).rate_history@,
                                MAX_HISTORY_POINTS as nat,
                                capped_total(final (self).total_visible_rate()),
                            )
                            &&& final (self).selected_index == reclamp(
                                old(self).selected_index,
                                final (self).visible_count(),
                            )
                            &&& final (self).smoother.cap == old(self).smoother.cap
                            &&& (forall|k: int|
                                0 <= k < final (self).smoother.windows@.len()
                                    ==> crate::rates::has_row_named(
                                    final (self).indices@,
                                    (#[trigger] final (self).smoother.windows@[k]).name@,
                                ))
                        },
                        Err(e) => {
                            &&& *final (self) == (App {
                                loading: false,
                                last_refresh_ms: Some(now_ms),
                                fetch_start_ms: None,
                                last_fetch_duration_ms: duration,
                                error: Some(e),
                                ..*old(self)
                            })
                        },
                    }
                },
            },
    {
        match event {
            FetchEvent::Empty => {},
            FetchEvent::Disconnected => {
                self.loading = false;
                self.error = Some("Fetch task disconnected".to_owned());
            },
            FetchEvent::Ready(res) => {
                self.loading = false;
                self.last_refresh_ms = Some(now_ms);
                match self.fetch_start_ms {
                    Some(st) => {
                        self.last_fetch_duration_ms = Some(
                            if now_ms >= st {
                                now_ms - st
                            } else {
                                0
                            },
                        );
                    },
                    None => {},
                }
                self.fetch_start_ms = None;
                match res {
                    Ok((stats, health)) => {
                        let ghost pre = *old(self);
                        let sv = crate::stats::snapshots_of_stats(&stats);
                        proof {
                            assert(sv@ =~= pairs_of_stats(stats)) by {
                                assert forall|k: int| 0 <= k < sv@.len() implies sv@[k]
                                    == pairs_of_stats(stats)[k] by {
                                    assert(sv@[k].1 == IndexSnapshot {
                                        doc_count: stats.indices@[k].1.primaries.docs.count,
                                        index_total:
                                            stats.indices@[k].1.primaries.indexing.index_total,
                                        size_bytes:
                                            stats.indices@[k].1.primaries.store.size_in_bytes,
                                        health: stats.indices@[k].1.health,
                                    });
                                }
                            }
                        }
                        let pairs = crate::stats::dedup_by_name(sv);
                        let ghost pairsg = pairs@;
                        let rates = self.snapshots.compute_rates(now_ms, pairs);
                        proof {
                            assert forall|k1: int, k2: int|
                                0 <= k1 < k2 < rates@.len() implies (
                            #[trigger] rates@[k1]).name@ != (#[trigger] rates@[k2]).name@ by {
                                assert(rates@[k1].name == pairsg[k1].0);
                                assert(rates@[k2].name == pairsg[k2].0);
                            }
                        }
                        let mut rows = self.smoother.apply(rates);
                        proof {
                            let ghost want = polled_rows(pre, stats, now_ms);
                            assert(rows@ =~= want) by {
                                assert forall|k: int| 0 <= k < rows@.len() implies rows@[k]
                                    == want[k] by {
                                    let p = dedup_pairs(pairs_of_stats(stats))[k];
                                    assert(rates@[k] == IndexRate {
                                        name: p.0,
                                        doc_count: p.1.doc_count,
                                        rate_milli: spec_inst_rate(
                                            pre.snapshots,
                                            p.0@,
                                            p.1.index_total,
                                            now_ms,
                                        ),
                                        size_bytes: p.1.size_bytes,
                                        health: p.1.health,
                                    });
                                    assert(rows@[k] == smooth_row(pre.smoother, rates@[k]));
                                }
                            }
                        }
                        self.sort.sort(&mut rows);
                        self.indices = rows;
                        self.cluster_health = health;
                        self.error = None;
                        self.smoother.prune(&self.indices);
                        let total = self.total_cluster_rate();
                        self.push_history(total);
                        self.reclamp_selection();
                    },
                    Err(e) => {
                        self.error = Some(e);
                    },
                }
            },
        }
    }
}

/// What dispatching one action does: the relation between the controller
/// state before and after `handle_action`, and the detail-fetch request it
/// hands back.
pub open spec fn action_step(
    pre: App,
    post: App,
    action: Action,
    req: Option<(String, u64, u64, u64)>,
) -> bool {
    &&& (req is Some ==> action == Action::ShowDetails)
    &&& match action {
        Action::Quit => post == (App { running: false, ..pre }),
        Action::SelectUp => post == (App {
            selected_index: move_sel(pre.selected_index, pre.visible_count(), -1),
            ..pre
        }),
        Action::SelectDown => post == (App {
            selected_index: move_sel(pre.selected_index, pre.visible_count(), 1),
            ..pre
        }),
        Action::SelectPageUp => post == (App {
            selected_index: move_sel(pre.selected_index, pre.visible_count(), -20),
            ..pre
        }),
        Action::SelectPageDown => post == (App {
            selected_index: move_sel(pre.selected_index, pre.visible_count(), 20),
            ..pre
        }),
        Action::SelectFirst => post == (App {
            selected_index: if pre.visible_count() > 0 {
                Some(0usize)
            } else {
                pre.selected_index
            },
            ..pre
        }),
        Action::SelectLast => post == (App {
            selected_index: if pre.visible_count() > 0 {
                Some((pre.visible_count() - 1) as usize)
            } else {
                pre.selected_index
            },
            ..pre
        }),
        Action::ToggleHelp => post == (App {
            show_help_popup: !pre.show_help_popup,
            help_scroll: if !pre.show_help_popup {
                0usize
            } else {
                pre.help_scroll
            },
            ..pre
        }),
        Action::HelpScrollUp => post == (App {
            help_scroll: if pre.help_scroll > 0 {
                (pre.help_scroll - 1) as usize
            } else {
                0usize
            },
            ..pre
        }),
        Action::HelpScrollDown => post == (App {
            help_scroll: if pre.help_scroll < usize::MAX {
                (pre.help_scroll + 1) as usize
            } else {
                usize::MAX
            },
            ..pre
        }),
        Action::TogglePause => post == (App { paused: !pre.paused, ..pre }),
        Action::ToggleGraph => post == (App { show_graph: !pre.show_graph, ..pre }),
        Action::ToggleHealth => post == (App { show_health: !pre.show_health, ..pre }),
        Action::ToggleIndices => post == (App { show_indices: !pre.show_indices, ..pre }),
        Action::ToggleSystemIndices => {
            let mid = App { show_system_indices: !pre.show_system_indices, ..pre };
            post == (App {
                selected_index: reclamp(pre.selected_index, mid.visible_count()),
                ..mid
            })
        },
        Action::ShowDetails => {
            &&& (pre.selected_index is None ==> post == pre && req is None)
            &&& (pre.selected_index matches Some(s) ==> {
                &&& post == (App { details: post.details, ..pre })
                &&& post.details.show_popup
                &&& post.details.loading
                &&& post.details.data is None
                &&& post.details.error is None
                &&& post.details.scroll == 0
                &&& exists|pos: int|
                    #[trigger] pre.is_nth_visible(s as int, pos) && req == Some(
                        (
                            pre.indices@[pos].name,
                            pre.indices@[pos].doc_count,
                            pre.indices@[pos].rate_milli,
                            pre.indices@[pos].size_bytes,
                        ),
                    )
            })
        },
        Action::ToggleExclude => {
            &&& (pre.selected_index is None ==> post == pre)
            &&& (pre.selected_index matches Some(s) ==> {
                &&& post.excluded_indices@.len() == pre.excluded_indices@.len() + 1
                &&& post.excluded_indices@.drop_last() == pre.excluded_indices@
                &&& exists|pos: int|
                    #[trigger] pre.is_nth_visible(s as int, pos) && (
                    post.excluded_indices@.last())@ == pre.indices@[pos].name@
                &&& ({
                    let mid = App { excluded_indices: post.excluded_indices, ..pre };
                    post == (App {
                        selected_index: reclamp(Some(s), mid.visible_count()),
                        ..mid
                    })
                })
                &&& post.visible_count() <= pre.visible_count()
                &&& (pre.visible_count() == 1 ==> post.selected_index is None
                    && post.visible_count() == 0)
            })
            &&& (sel_tracks(pre.selected_index, pre.visible_count()) ==> sel_tracks(
                post.selected_index,
                post.visible_count(),
            ))
        },
        Action::ClearExclusions => {
            let mid = App { excluded_indices: post.excluded_indices, ..pre };
            &&& post == (App {
                selected_index: reclamp(pre.selected_index, mid.visible_count()),
                ..mid
            })
            &&& post.excluded_indices@.len() == 0
        },
        Action::IncreaseRefreshRate => post == (App {
            refresh_interval_secs: if pre.refresh_interval_secs > MIN_REFRESH_SECS {
                (pre.refresh_interval_secs - 1) as u64
            } else {
                pre.refresh_interval_secs
            },
            ..pre
        }),
        Action::DecreaseRefreshRate => post == (App {
            refresh_interval_secs: if pre.refresh_interval_secs < MAX_REFRESH_SECS {
                (pre.refresh_interval_secs + 1) as u64
            } else {
                pre.refresh_interval_secs
            },
            ..pre
        }),
        Action::NextColormap => post == (App { colormap: pre.colormap.spec_next(), ..pre }),
        Action::PrevColormap => post == (App { colormap: pre.colormap.spec_prev(), ..pre }),
        Action::NextColumn => {
            &&& post.sort.column == pre.sort.column.spec_next()
            &&& post.sort.order == pre.sort.order
            &&& post.indices@.to_multiset() == pre.indices@.to_multiset()
            &&& crate::sort::sorted_rows(post.sort.column, post.sort.order, post.indices@)
            &&& post.indices@ == crate::sort::sort_rows_spec(
                post.sort.column,
                post.sort.order,
                pre.indices@,
            )
            &&& same_but_sort_view(pre, post)
        },
        Action::PrevColumn => {
            &&& post.sort.column == pre.sort.column.spec_prev()
            &&& post.sort.order == pre.sort.order
            &&& post.indices@.to_multiset() == pre.indices@.to_multiset()
            &&& crate::sort::sorted_rows(post.sort.column, post.sort.order, post.indices@)
            &&& post.indices@ == crate::sort::sort_rows_spec(
                post.sort.column,
                post.sort.order,
                pre.indices@,
            )
            &&& same_but_sort_view(pre, post)
        },
        Action::ToggleSortOrder => {
            &&& post.sort.order == pre.sort.order.spec_toggle()
            &&& post.sort.column == pre.sort.column
            &&& post.indices@.to_multiset() == pre.indices@.to_multiset()
            &&& crate::sort::sorted_rows(post.sort.column, post.sort.order, post.indices@)
            &&& post.indices@ == crate::sort::sort_rows_spec(
                post.sort.column,
                post.sort.order,
                pre.indices@,
            )
            &&& same_but_sort_view(pre, post)
        },
        Action::EnterFilterMode => {
            &&& post == (App { filter: post.filter, ..pre })
            &&& post.filter.active
            &&& crate::filter::unchanged_but_active(pre.filter, post.filter)
        },
        Action::ExitFilterMode => {
            &&& post == (App { filter: post.filter, ..pre })
            &&& !post.filter.active
            &&& crate::filter::unchanged_but_active(pre.filter, post.filter)
        },
        Action::ClearFilter => {
            let mid = App { filter: post.filter, ..pre };
            &&& post == (App {
                selected_index: reclamp(pre.selected_index, mid.visible_count()),
                ..mid
            })
            &&& !post.filter.active
            &&& post.filter.spec_text().len() == 0
            &&& post.filter.error is None
            &&& post.filter.match_all()
        },
        Action::CloseDetails => {
            &&& post == (App { details: post.details, ..pre })
            &&& !post.details.show_popup
            &&& post.details.data is None
            &&& !post.details.loading
            &&& post.details.error is None
            &&& post.details.scroll == 0
        },
        Action::DetailsScrollUp => {
            &&& post == (App { details: post.details, ..pre })
            &&& crate::details::scroll_only_changed(pre.details, post.details)
            &&& post.details.scroll == if pre.details.scroll > 0 {
                (pre.details.scroll - 1) as usize
            } else {
                0usize
            }
        },
        Action::DetailsScrollDown => {
            &&& post == (App { details: post.details, ..pre })
            &&& crate::details::scroll_only_changed(pre.details, post.details)
            &&& post.details.scroll == if pre.details.scroll < usize::MAX {
                (pre.details.scroll + 1) as usize
            } else {
                usize::MAX
            }
        },
        Action::DetailsScrollPageUp => {
            &&& post == (App { details: post.details, ..pre })
            &&& crate::details::scroll_only_changed(pre.details, post.details)
            &&& post.details.scroll == if pre.details.scroll >= 10 {
                (pre.details.scroll - 10) as usize
            } else {
                0usize
            }
        },
        Action::DetailsScrollPageDown => {
            &&& post == (App { details: post.details, ..pre })
            &&& crate::details::scroll_only_changed(pre.details, post.details)
            &&& post.details.scroll == if pre.details.scroll as int + 10 <= usize::MAX as int {
                (pre.details.scroll + 10) as usize
            } else {
                usize::MAX
            }
        },
    }
}

impl App {
    /// Performs one discrete action, as `action_step` describes, handing
    /// back the detail-fetch request when the action opens the overlay.
    pub fn handle_action(&mut self, action: Action) -> (req: Option<(String, u64, u64, u64)>)
        requires
            old(self).wf(),
        ensures
            final (self).wf(),
            action_step(*old(self), *final (self), action, req),
    {
        match action {
            Action::Quit
            | Action::SelectUp
            | Action::SelectDown
            | Action::SelectPageUp
            | Action::SelectPageDown
            | Action::SelectFirst
            | Action::SelectLast => self.handle_nav_action(action),
            Action::ToggleHelp
            | Action::HelpScrollUp
            | Action::HelpScrollDown
            | Action::TogglePause
            | Action::ToggleGraph
            | Action::ToggleHealth
            | Action::ToggleIndices
            | Action::ToggleSystemIndices
            | Action::ClearExclusions => self.handle_toggle_action(action),
            Action::IncreaseRefreshRate
            | Action::DecreaseRefreshRate
            | Action::NextColormap
            | Action::PrevColormap
            | Action::NextColumn
            | Action::PrevColumn
            | Action::ToggleSortOrder => self.handle_setting_action(action),
            Action::ShowDetails
            | Action::ToggleExclude
            | Action::EnterFilterMode
            | Action::ExitFilterMode
            | Action::ClearFilter
            | Action::CloseDetails
            | Action::DetailsScrollUp
            | Action::DetailsScrollDown
            | Action::DetailsScrollPageUp
            | Action::DetailsScrollPageDown => self.handle_data_action(action),
        }
    }

    /// Dispatch of the navigation actions and quit.
    fn handle_nav_action(&mut self, action: Action) -> (req: Option<(String, u64, u64, u64)>)
        requires
            old(self).wf(),
            action == Action::Quit || action == Action::SelectUp || action == Action::SelectDown
                || action == Action::SelectPageUp || action == Action::SelectPageDown || action
                == Action::SelectFirst || action == Action::SelectLast,
        ensures
            final (self).wf(),
            action_step(*old(self), *final (self), action, req),
    {
        match action {
            Action::Quit => {
                self.quit();
                proof {
                    assert(self.wf());
                }
            },
            Action::SelectUp => {
                self.select_up();
            },
            Action::SelectDown => {
                self.select_down();
            },
            Action::SelectPageUp => {
                self.select_page_up(20);
            },
            Action::SelectPageDown => {
                self.select_page_down(20);
            },
            Action::SelectFirst => {
                self.select_first();
            },
            _ => {
                self.select_last();
            },
        }
        None
    }

    /// Dispatch of the panel and visibility toggles.
    fn handle_toggle_action(&mut self, action: Action) -> (req: Option<(String, u64, u64, u64)>)
        requires
            old(self).wf(),
            action == Action::ToggleHelp || action == Action::HelpScrollUp || action
                == Action::HelpScrollDown || action == Action::TogglePause || action
                == Action::ToggleGraph || action == Action::ToggleHealth || action
                == Action::ToggleIndices || action == Action::ToggleSystemIndices || action
                == Action::ClearExclusions,
        ensures
            final (self).wf(),
            action_step(*old(self), *final (self), action, req),
    {
        match action {
            Action::ToggleHelp => {
                self.toggle_help_popup();
                proof {
                    assert(self.wf());
                }
            },
            Action::HelpScrollUp => {
                self.help_scroll_up();
                proof {
                    assert(self.wf());
                }
            },
            Action::HelpScrollDown => {
                self.help_scroll_down();
                proof {
                    assert(self.wf());
                }
            },
            Action::TogglePause => {
                self.toggle_pause();
                proof {
                    assert(self.wf());
                }
            },
            Action::ToggleGraph => {
                self.toggle_graph();
                proof {
                    assert(self.wf());
                }
            },
            Action::ToggleHealth => {
                self.toggle_health();
                proof {
                    assert(self.wf());
                }
            },
            Action::ToggleIndices => {
                self.toggle_indices();
                proof {
                    assert(self.wf());
                }
            },
            Action::ToggleSystemIndices => {
                self.toggle_system_indices();
            },
            _ => {
                self.clear_exclusions();
            },
        }
        None
    }

    /// Dispatch of the refresh, colormap and sort settings.
    fn handle_setting_action(&mut self, action: Action) -> (req: Option<(String, u64, u64, u64)>)
        requires
            old(self).wf(),
            action == Action::IncreaseRefreshRate || action == Action::DecreaseRefreshRate
                || action == Action::NextColormap || action == Action::PrevColormap || action
                == Action::NextColumn || action == Action::PrevColumn || action
                == Action::ToggleSortOrder,
        ensures
            final (self).wf(),
            action_step(*old(self), *final (self), action, req),
    {
        match action {
            Action::IncreaseRefreshRate => {
                self.increase_refresh_rate();
                proof {
                    assert(self.wf());
                }
            },
            Action::DecreaseRefreshRate => {
                self.decrease_refresh_rate();
                proof {
                    assert(self.wf());
                }
            },
            Action::NextColormap => {
                self.next_colormap();
                proof {
                    assert(self.wf());
                }
            },
            Action::PrevColormap => {
                self.prev_colormap();
                proof {
                    assert(self.wf());
                }
            },
            Action::NextColumn => {
                self.next_column();
            },
            Action::PrevColumn => {
                self.prev_column();
            },
            _ => {
                self.toggle_sort_order();
            },
        }
        None
    }

    /// Dispatch of the filter, exclusion and detail-overlay operations.
    fn handle_data_action(&mut self, action: Action) -> (req: Option<(String, u64, u64, u64)>)
        requires
            old(self).wf(),
            action == Action::ShowDetails || action == Action::ToggleExclude || action
                == Action::EnterFilterMode || action == Action::ExitFilterMode || action
                == Action::ClearFilter || action == Action::CloseDetails || action
                == Action::DetailsScrollUp || action == Action::DetailsScrollDown || action
                == Action::DetailsScrollPageUp || action == Action::DetailsScrollPageDown,
        ensures
            final (self).wf(),
            action_step(*old(self), *final (self), action, req),
    {
        match action {
            Action::ShowDetails => {
                let req = self.show_index_details();
                proof {
                    assert(self.wf());
                }
                return req;
            },
            Action::ToggleExclude => {
                self.toggle_exclude_selected();
            },
            Action::EnterFilterMode => {
                self.enter_filter_mode();
                proof {
                    lemma_count_vis_filter_equiv(
                        self.indices@,
                        self.excluded_indices@,
                        self.show_system_indices,
                        old(self).filter,
                        self.filter,
                        self.indices@.len() as int,
                    );
                    assert(self.wf());
                }
            },
            Action::ExitFilterMode => {
                self.exit_filter_mode();
                proof {
                    lemma_count_vis_filter_equiv(
                        self.indices@,
                        self.excluded_indices@,
                        self.show_system_indices,
                        old(self).filter,
                        self.filter,
                        self.indices@.len() as int,
                    );
                    assert(self.wf());
                }
            },
            Action::ClearFilter => {
                self.clear_filter();
            },
            Action::CloseDetails => {
                self.close_details_popup();
                proof {
                    assert(self.wf());
                }
            },
            Action::DetailsScrollUp => {
                self.details_scroll_up();
                proof {
                    assert(self.wf());
                }
            },
            Action::DetailsScrollDown => {
                self.details_scroll_down();
                proof {
                    assert(self.wf());
                }
            },
            Action::DetailsScrollPageUp => {
                self.details_scroll_page_up(10);
                proof {
                    assert(self.wf());
                }
            },
            _ => {
                self.details_scroll_page_down(10);
                proof {
                    assert(self.wf());
                }
            },
        }
        None
    }
}

/// The two states agree on everything but the sort setting, the row order
/// and the selection.
pub open spec fn same_but_sort_view(a: App, b: App) -> bool {
    b == (App { sort: b.sort, indices: b.indices, selected_index: b.selected_index, ..a })
}


/// The weaker half of the selection invariant, used as the standing state
/// invariant: an empty view clears the selection, and a selection is in
/// range. (The full `sel_tracks` also demands a selection whenever the view
/// is nonempty, which first movement establishes.)
pub open spec fn sel_tracks_weak(sel: Option<usize>, count: int) -> bool {
    &&& (count == 0 ==> sel is None)
    &&& (sel matches Some(i) ==> (i as int) < count)
}

/// The clamped refresh interval.
pub open spec fn clamp_refresh(secs: u64) -> u64 {
    if secs < MIN_REFRESH_SECS {
        MIN_REFRESH_SECS
    } else if secs > MAX_REFRESH_SECS {
        MAX_REFRESH_SECS
    } else {
        secs
    }
}

} // verus!
