//! The snapshot and diff engine: it decides, for each produced output,
//! whether to send a complete snapshot or a change-set, and computes the
//! change-set body.
//!
//! A change-set lists, in row-major order, exactly the cells that differ
//! from the previously emitted screen. Applying the change-set to that
//! previous screen reconstructs the new one cell for cell
//! ([`lemma_diff_round_trip`]).

use vstd::prelude::*;

use crate::output::native::{
    cell_views, change_views, CellChange, CellView, ChangeView, CompleteScreen,
    CompleteScrollback, CompleteSurface, Output, ScreenDiff, SurfaceDiff,
};

verus! {

/// The change-set between two equal-length grids, considering the cells from
/// index `i` on: for every index at which the grids differ, one change
/// carrying the new cell, in increasing index order.
pub open spec fn screen_changes(old: Seq<CellView>, new: Seq<CellView>, i: int) -> Seq<ChangeView>
    decreases new.len() - i,
{
    if i < 0 || i >= new.len() {
        Seq::empty()
    } else if old[i] != new[i] {
        seq![ChangeView { index: i, cell: new[i] }] + screen_changes(old, new, i + 1)
    } else {
        screen_changes(old, new, i + 1)
    }
}

/// Applying a change-set to a grid: each change in turn overwrites the cell
/// at its index.
pub open spec fn apply_changes(base: Seq<CellView>, cs: Seq<ChangeView>) -> Seq<CellView>
    decreases cs.len(),
{
    if cs.len() == 0 {
        base
    } else {
        apply_changes(base.update(cs[0].index, cs[0].cell), cs.skip(1))
    }
}

/// Every change of [`screen_changes`] lies between `i` and the length of the
/// grids, carries the new cell at its index, names an index at which the
/// grids differ, and the indices are strictly increasing.
pub proof fn lemma_changes_sound(old: Seq<CellView>, new: Seq<CellView>, i: int)
    requires
        old.len() == new.len(),
    ensures
        forall|k: int|
            0 <= k < screen_changes(old, new, i).len() ==> {
                let c = #[trigger] screen_changes(old, new, i)[k];
                &&& i <= c.index < new.len()
                &&& c.cell == new[c.index]
                &&& old[c.index] != new[c.index]
            },
        forall|k1: int, k2: int|
            0 <= k1 < k2 < screen_changes(old, new, i).len()
                ==> #[trigger] screen_changes(old, new, i)[k1].index
                < #[trigger] screen_changes(old, new, i)[k2].index,
    decreases new.len() - i,
{
    if i < 0 || i >= new.len() {
    } else {
        lemma_changes_sound(old, new, i + 1);
        if old[i] != new[i] {
            let head = seq![ChangeView { index: i, cell: new[i] }];
            let rest = screen_changes(old, new, i + 1);
            assert forall|k: int| 0 <= k < (head + rest).len() implies {
                let c = #[trigger] (head + rest)[k];
                &&& i <= c.index < new.len()
                &&& c.cell == new[c.index]
                &&& old[c.index] != new[c.index]
            } by {
                if k == 0 {
                } else {
                    assert((head + rest)[k] == rest[k - 1]);
                }
            }
        }
    }
}

/// Every index at which the grids differ, from `i` on, is named by some
/// change of [`screen_changes`].
pub proof fn lemma_changes_complete(old: Seq<CellView>, new: Seq<CellView>, i: int, j: int)
    requires
        old.len() == new.len(),
        0 <= i <= j < new.len(),
        old[j] != new[j],
    ensures
        exists|k: int|
            0 <= k < screen_changes(old, new, i).len()
                && #[trigger] screen_changes(old, new, i)[k].index == j,
    decreases new.len() - i,
{
    if j == i {
        assert(screen_changes(old, new, i)[0].index == j);
    } else {
        lemma_changes_complete(old, new, i + 1, j);
        let k = choose|k: int|
            0 <= k < screen_changes(old, new, i + 1).len()
                && #[trigger] screen_changes(old, new, i + 1)[k].index == j;
        if old[i] != new[i] {
            assert(screen_changes(old, new, i)[k + 1].index == j);
        }
    }
}

/// Applying a change-set moves a grid that agrees with `new` below `i` and
/// with `old` from `i` on, to `new` exactly.
proof fn lemma_changes_reconstruct(
    old: Seq<CellView>,
    new: Seq<CellView>,
    base: Seq<CellView>,
    i: int,
)
    requires
        old.len() == new.len(),
        base.len() == new.len(),
        0 <= i <= new.len(),
        forall|j: int| 0 <= j < i ==> base[j] == new[j],
        forall|j: int| i <= j < new.len() ==> base[j] == old[j],
    ensures
        apply_changes(base, screen_changes(old, new, i)) =~= new,
    decreases new.len() - i,
{
    if i == new.len() {
        assert(apply_changes(base, screen_changes(old, new, i)) =~= new);
    } else if old[i] != new[i] {
        let head = ChangeView { index: i, cell: new[i] };
        let rest = screen_changes(old, new, i + 1);
        let cs = seq![head] + rest;
        assert(cs[0] == head);
        assert(cs.skip(1) =~= rest);
        lemma_changes_reconstruct(old, new, base.update(i, new[i]), i + 1);
    } else {
        lemma_changes_reconstruct(old, new, base, i + 1);
    }
}

/// The diff/complete equivalence, the round-trip law: applying the
/// change-set computed between two grids of one size to the old grid
/// reconstructs the new grid cell for cell.
pub proof fn lemma_diff_round_trip(old: Seq<CellView>, new: Seq<CellView>)
    requires
        old.len() == new.len(),
    ensures
        apply_changes(old, screen_changes(old, new, 0)) == new,
{
    lemma_changes_reconstruct(old, new, old, 0);
}

/// Replaying a sequence of change-sets, one after the other.
pub open spec fn replay(base: Seq<CellView>, diffs: Seq<Seq<ChangeView>>) -> Seq<CellView>
    decreases diffs.len(),
{
    if diffs.len() == 0 {
        base
    } else {
        replay(apply_changes(base, diffs[0]), diffs.skip(1))
    }
}

/// The change-sets emitted along a chain of equally sized snapshots, one
/// between each consecutive pair.
pub open spec fn chain_changes(snaps: Seq<Seq<CellView>>) -> Seq<Seq<ChangeView>> {
    Seq::new(
        if snaps.len() == 0 { 0 } else { (snaps.len() - 1) as nat },
        |k: int| screen_changes(snaps[k], snaps[k + 1], 0),
    )
}

proof fn lemma_replay_chain_from(snaps: Seq<Seq<CellView>>, i: int)
    requires
        snaps.len() >= 1,
        0 <= i < snaps.len(),
        forall|k: int| 0 <= k < snaps.len() ==> (#[trigger] snaps[k]).len() == snaps[0].len(),
    ensures
        replay(snaps[i], chain_changes(snaps).skip(i)) == snaps.last(),
    decreases snaps.len() - i,
{
    let diffs = chain_changes(snaps);
    if i == snaps.len() - 1 {
        assert(diffs.skip(i) =~= Seq::<Seq<ChangeView>>::empty());
    } else {
        assert(diffs.skip(i)[0] == screen_changes(snaps[i], snaps[i + 1], 0));
        lemma_diff_round_trip(snaps[i], snaps[i + 1]);
        assert(diffs.skip(i).skip(1) =~= diffs.skip(i + 1));
        lemma_replay_chain_from(snaps, i + 1);
    }
}

/// Applying the full ordered sequence of change-sets emitted along a chain
/// of equally sized snapshots, starting from the first snapshot,
/// reconstructs the final snapshot cell for cell.
pub proof fn lemma_diff_stream_reconstructs(snaps: Seq<Seq<CellView>>)
    requires
        snaps.len() >= 1,
        forall|k: int| 0 <= k < snaps.len() ==> (#[trigger] snaps[k]).len() == snaps[0].len(),
    ensures
        replay(snaps[0], chain_changes(snaps)) == snaps.last(),
{
    assert(chain_changes(snaps).skip(0) =~= chain_changes(snaps));
    lemma_replay_chain_from(snaps, 0);
}

/// Applying one more change on top of an applied change-set is the same as
/// applying the extended change-set.
proof fn lemma_apply_push(base: Seq<CellView>, cs: Seq<ChangeView>, c: ChangeView)
    ensures
        apply_changes(base, cs.push(c)) == apply_changes(base, cs).update(c.index, c.cell),
    decreases cs.len(),
{
    let ext = cs.push(c);
    assert(ext.len() == cs.len() + 1);
    if cs.len() == 0 {
        assert(ext[0] == c);
        assert(ext.skip(1) =~= Seq::<ChangeView>::empty());
        assert(apply_changes(base, ext) == apply_changes(base.update(c.index, c.cell), ext.skip(1)));
        assert(apply_changes(base.update(c.index, c.cell), ext.skip(1)) == base.update(
            c.index,
            c.cell,
        ));
        assert(apply_changes(base, cs) == base);
    } else {
        assert(ext[0] == cs[0]);
        assert(ext.skip(1) =~= cs.skip(1).push(c));
        let stepped = base.update(cs[0].index, cs[0].cell);
        assert(apply_changes(base, ext) == apply_changes(stepped, ext.skip(1)));
        lemma_apply_push(stepped, cs.skip(1), c);
        assert(apply_changes(base, cs) == apply_changes(stepped, cs.skip(1)));
    }
}

/// The computed change-set between two screens of one size.
///
/// The result lists exactly the cells of `new` that differ from `old`, in
/// row-major order, and carries the cursor, title and mode of `new`.
pub fn diff_screens(old: &CompleteScreen, new: &CompleteScreen) -> (r: ScreenDiff)
    requires
        old.wf(),
        new.wf(),
        old@.width == new@.width,
        old@.height == new@.height,
    ensures
        change_views(r.changes@) == screen_changes(old@.cells, new@.cells, 0),
        r.cursor == new.cursor,
        r.title@ == new@.title,
        r.mode == new@.mode,
        apply_changes(old@.cells, change_views(r.changes@)) == new@.cells,
{
    let ghost o = old@.cells;
    let ghost n = new@.cells;
    let mut changes: Vec<CellChange> = Vec::new();
    let mut i: usize = 0;
    while i < new.cells.len()
        invariant
            old@.cells == o,
            new@.cells == n,
            o.len() == n.len(),
            i <= n.len(),
            new.cells@.len() == n.len(),
            old.cells@.len() == n.len(),
            change_views(changes@) + screen_changes(o, n, i as int) == screen_changes(o, n, 0),
        decreases n.len() - i,
    {
        let ghost before = changes@;
        if !old.cells[i].same_as(&new.cells[i]) {
            let change = CellChange { index: i, cell: new.cells[i].duplicate() };
            changes.push(change);
            proof {
                assert(change_views(changes@) =~= change_views(before).push(change@));
                assert(screen_changes(o, n, i as int) == seq![
                    ChangeView { index: i as int, cell: n[i as int] },
                ] + screen_changes(o, n, i + 1));
                assert(change_views(changes@) + screen_changes(o, n, i + 1) =~= change_views(
                    before,
                ) + screen_changes(o, n, i as int));
            }
        } else {
            proof {
                assert(screen_changes(o, n, i as int) == screen_changes(o, n, i + 1));
            }
        }
        i = i + 1;
    }
    proof {
        assert(screen_changes(o, n, i as int) =~= Seq::<ChangeView>::empty());
        assert(change_views(changes@) =~= change_views(changes@) + screen_changes(o, n, i as int));
        lemma_diff_round_trip(o, n);
    }
    ScreenDiff { changes, cursor: new.cursor, title: new.title.clone(), mode: new.mode }
}

impl ScreenDiff {
    /// Whether this change-set can be applied to the given screen: every
    /// change lies inside the grid and the carried cursor does too.
    pub open spec fn valid_for(&self, base: &CompleteScreen) -> bool {
        &&& forall|k: int|
            0 <= k < self.changes@.len() ==> 0 <= (#[trigger] change_views(self.changes@)[k]).index
                < base@.cells.len()
        &&& self.cursor.col < base@.width
        &&& self.cursor.row < base@.height
    }
}

/// The given screen with the change-set applied: each listed cell is
/// overwritten, every other cell is kept, and the cursor, title and mode are
/// taken from the change-set.
pub fn apply_screen_diff(base: &CompleteScreen, d: &ScreenDiff) -> (r: CompleteScreen)
    requires
        base.wf(),
        d.valid_for(base),
    ensures
        r.wf(),
        r@.width == base@.width,
        r@.height == base@.height,
        r@.cells == apply_changes(base@.cells, change_views(d.changes@)),
        r@.cursor == d.cursor,
        r@.title == d.title@,
        r@.mode == d.mode,
{
    let ghost b = base@.cells;
    let ghost cs = change_views(d.changes@);
    let mut cells = crate::output::native::duplicate_cells(&base.cells);
    let mut k: usize = 0;
    while k < d.changes.len()
        invariant
            base@.cells == b,
            change_views(d.changes@) == cs,
            d.changes@.len() == cs.len(),
            forall|j: int| 0 <= j < cs.len() ==> 0 <= (#[trigger] cs[j]).index < b.len(),
            k <= cs.len(),
            cell_views(cells@) == apply_changes(b, cs.take(k as int)),
            cells@.len() == b.len(),
        decreases cs.len() - k,
    {
        proof {
            lemma_apply_push(b, cs.take(k as int), cs[k as int]);
            assert(cs.take(k as int).push(cs[k as int]) =~= cs.take(k + 1));
        }
        let ghost before = cells@;
        let idx = d.changes[k].index;
        let cell = d.changes[k].cell.duplicate();
        cells.set(idx, cell);
        proof {
            assert(cell_views(cells@) =~= cell_views(before).update(
                cs[k as int].index,
                cs[k as int].cell,
            ));
        }
        k = k + 1;
    }
    proof {
        assert(cs.take(cs.len() as int) =~= cs);
    }
    let r = CompleteScreen {
        width: base.width,
        height: base.height,
        cells,
        cursor: d.cursor,
        title: d.title.clone(),
        mode: d.mode,
    };
    proof {
        assert(r@.cells =~= apply_changes(base@.cells, change_views(d.changes@)));
    }
    r
}

/// The per-surface-kind baseline against which the next change-set is
/// computed.
///
/// A baseline is present for a kind exactly when an output has been emitted
/// for that kind; the first output of a kind is therefore always a complete
/// snapshot.
pub struct DiffEngine {
    /// The last emitted screen, or nothing before the first emission.
    pub screen_baseline: Option<CompleteScreen>,
}

impl DiffEngine {
    /// The baseline is well-formed whenever it is present.
    pub open spec fn wf(&self) -> bool {
        match self.screen_baseline {
            Some(b) => b.wf(),
            None => true,
        }
    }

    /// The value of the screen baseline, if one is present.
    pub open spec fn screen_baseline_view(&self) -> Option<crate::output::native::ScreenView> {
        match self.screen_baseline {
            Some(b) => Some(b@),
            None => None,
        }
    }

    /// An engine that has emitted nothing yet.
    pub fn new() -> (r: DiffEngine)
        ensures
            r.wf(),
            r.screen_baseline_view() is None,
    {
        DiffEngine { screen_baseline: None }
    }

    /// One observation of the screen surface.
    ///
    /// The first observation, and any observation whose dimensions differ
    /// from the baseline's, is emitted whole and re-baselines the engine.
    /// Every other observation is emitted as the change-set against the
    /// baseline; applying it to the baseline reconstructs the observed
    /// screen.
    pub fn observe_screen(&mut self, snap: CompleteScreen) -> (r: Output)
        requires
            old(self).wf(),
            snap.wf(),
        ensures
            final(self).wf(),
            final(self).screen_baseline_view() == Some(snap@),
            old(self).screen_baseline_view() is None ==> r == Output::Complete(
                CompleteSurface::Screen(snap),
            ),
            (match old(self).screen_baseline_view() {
                Some(b) => b.width != snap@.width || b.height != snap@.height,
                None => false,
            }) ==> r == Output::Complete(CompleteSurface::Screen(snap)),
            (match old(self).screen_baseline_view() {
                Some(b) => b.width == snap@.width && b.height == snap@.height,
                None => false,
            }) ==> (r matches Output::Diff(SurfaceDiff::Screen(d)) && {
                let b = old(self).screen_baseline_view()->Some_0;
                &&& change_views(d.changes@) == screen_changes(b.cells, snap@.cells, 0)
                &&& apply_changes(b.cells, change_views(d.changes@)) == snap@.cells
                &&& d.cursor == snap@.cursor
                &&& d.title@ == snap@.title
                &&& d.mode == snap@.mode
            }),
    {
        match &self.screen_baseline {
            Some(b) if b.width == snap.width && b.height == snap.height => {
                let d = diff_screens(b, &snap);
                self.screen_baseline = Some(snap);
                Output::Diff(SurfaceDiff::Screen(d))
            },
            _ => {
                let copy = snap.duplicate();
                self.screen_baseline = Some(copy);
                Output::Complete(CompleteSurface::Screen(snap))
            },
        }
    }

    /// A forced whole emission of the screen surface, re-baselining the
    /// engine; used after a resize, which always yields a complete snapshot.
    pub fn force_screen_complete(&mut self, snap: CompleteScreen) -> (r: Output)
        requires
            old(self).wf(),
            snap.wf(),
        ensures
            final(self).wf(),
            final(self).screen_baseline_view() == Some(snap@),
            r == Output::Complete(CompleteSurface::Screen(snap)),
    {
        let copy = snap.duplicate();
        self.screen_baseline = Some(copy);
        Output::Complete(CompleteSurface::Screen(snap))
    }

    /// One observation of the scrollback surface.
    ///
    /// Diffing of scrollback is a documented limitation: every observation
    /// is emitted whole, never as a change-set.
    pub fn observe_scrollback(&mut self, snap: CompleteScrollback) -> (r: Output)
        ensures
            *final(self) == *old(self),
            r == Output::Complete(CompleteSurface::Scrollback(snap)),
    {
        Output::Complete(CompleteSurface::Scrollback(snap))
    }
}

} // verus!
