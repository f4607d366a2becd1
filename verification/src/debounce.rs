//! Debounce aggregation: while a window is open, repeated raw events for
//! the same path are coalesced last-kind-wins, one surviving entry per path,
//! kept in window-arrival order.  The window is a fixed offset from the
//! first event of the window, not a sliding one: it elapses `window_ms`
//! after the raw event that opened it.

use vstd::prelude::*;

use crate::events::canonical_of;
use crate::events::classify;
use crate::events::NormalizedEvent;
use crate::events::ProbedPath;
use crate::events::RawKind;

verus! {

/// One coalesced entry of the current window: a path and the most recent
/// raw kind observed for it.
#[derive(Debug)]
pub struct DebounceEntry {
    pub path: String,
    pub kind: RawKind,
}

/// The aggregator is idle between windows and collecting while one is open.
#[derive(Debug)]
pub enum DebounceState {
    Idle,
    Collecting { start_ms: u64, entries: Vec<DebounceEntry> },
}

impl DebounceState {
    /// The coalesced entries of the open window; empty when idle.
    pub open spec fn entries_of(self) -> Seq<DebounceEntry> {
        match self {
            DebounceState::Idle => Seq::<DebounceEntry>::empty(),
            DebounceState::Collecting { entries, .. } => entries@,
        }
    }

    /// When the open window started.
    pub open spec fn start_of(self) -> u64
        recommends
            self is Collecting,
    {
        self->start_ms
    }
}

/// Whether some entry already records the path.
pub open spec fn has_entry(entries: Seq<DebounceEntry>, path: Seq<char>) -> bool {
    exists|i: int| 0 <= i < entries.len() && (#[trigger] entries[i]).path@ == path
}

/// The index of the entry recording the path.
pub open spec fn entry_index(entries: Seq<DebounceEntry>, path: Seq<char>) -> int {
    choose|i: int| 0 <= i < entries.len() && (#[trigger] entries[i]).path@ == path
}

/// Last-kind-wins coalescing of one raw observation into the window: a path
/// already recorded keeps its position and takes the new kind; a new path is
/// appended.
pub open spec fn upsert_entry(entries: Seq<DebounceEntry>, path: String, kind: RawKind) -> Seq<
    DebounceEntry,
> {
    if has_entry(entries, path@) {
        let i = entry_index(entries, path@);
        entries.update(i, DebounceEntry { path: entries[i].path, kind })
    } else {
        entries.push(DebounceEntry { path, kind })
    }
}

/// Coalescing of one raw event naming several paths, first path first.
pub open spec fn upsert_all(
    entries: Seq<DebounceEntry>,
    paths: Seq<ProbedPath>,
    kind: RawKind,
) -> Seq<DebounceEntry>
    decreases paths.len(),
{
    if paths.len() == 0 {
        entries
    } else {
        upsert_all(upsert_entry(entries, paths[0].path, kind), paths.drop_first(), kind)
    }
}

/// At most one entry per path.
pub open spec fn entries_distinct(entries: Seq<DebounceEntry>) -> bool {
    forall|i: int, j: int|
        0 <= i < j < entries.len() ==> (#[trigger] entries[i]).path@ != (
        #[trigger] entries[j]).path@
}

/// Whether an open window has elapsed at `now_ms`: the window is a fixed
/// `window_ms` offset from the raw event that opened it.
pub open spec fn due_spec(st: DebounceState, now_ms: u64, window_ms: u64) -> bool {
    st is Collecting && now_ms >= st.start_of() + window_ms
}

/// The normalized events a flush emits, in window-arrival order.  The probe
/// outcomes are matched to the entries by position; a missing probe counts
/// as a failed one.
pub open spec fn flushed_events(
    entries: Seq<DebounceEntry>,
    probes: Seq<Option<bool>>,
) -> Seq<NormalizedEvent> {
    Seq::new(
        entries.len(),
        |j: int|
            NormalizedEvent {
                kind: canonical_of(entries[j].kind),
                path: entries[j].path,
                file_type: classify(
                    if 0 <= j < probes.len() {
                        probes[j]
                    } else {
                        None
                    },
                ),
            },
    )
}

/// Coalesces one raw observation into a window's entries.
fn upsert_one(entries: &mut Vec<DebounceEntry>, path: String, kind: RawKind)
    requires
        entries_distinct(old(entries)@),
    ensures
        final(entries)@ == upsert_entry(old(entries)@, path, kind),
        entries_distinct(final(entries)@),
{
    let mut i: usize = 0;
    while i < entries.len()
        invariant
            i <= entries@.len(),
            entries@ == old(entries)@,
            entries_distinct(entries@),
            forall|j: int| 0 <= j < i ==> (#[trigger] entries@[j]).path@ != path@,
        decreases entries@.len() - i,
    {
        if entries[i].path == path {
            proof {
                assert(has_entry(entries@, path@));
                let k = entry_index(entries@, path@);
                assert(0 <= k < entries@.len() && entries@[k].path@ == path@);
                assert(k == i);
            }
            entries[i].kind = kind;
            return ;
        }
        i = i + 1;
    }
    proof {
        assert(!has_entry(entries@, path@));
    }
    entries.push(DebounceEntry { path, kind });
}

impl DebounceState {
    /// Records one raw event in the window, opening one at `now_ms` if the
    /// aggregator was idle; every affected path is coalesced last-kind-wins,
    /// in the raw event's path order.
    pub fn record(&mut self, now_ms: u64, kind: RawKind, paths: Vec<ProbedPath>)
        requires
            entries_distinct(old(self).entries_of()),
        ensures
            *final(self) is Collecting,
            final(self).start_of() == if *old(self) is Collecting {
                old(self).start_of()
            } else {
                now_ms
            },
            final(self).entries_of() == upsert_all(old(self).entries_of(), paths@, kind),
            entries_distinct(final(self).entries_of()),
    {
        if let DebounceState::Idle = self {
            *self = DebounceState::Collecting { start_ms: now_ms, entries: Vec::new() };
        }
        match self {
            DebounceState::Collecting { start_ms, entries } => {
                let ghost all = paths@;
                let ghost target = upsert_all(entries@, all, kind);
                let mut rest = paths;
                while rest.len() != 0
                    invariant
                        entries_distinct(entries@),
                        upsert_all(entries@, rest@, kind) == target,
                    decreases rest@.len(),
                {
                    let ghost before = rest@;
                    let p = rest.remove(0);
                    proof {
                        assert(rest@ =~= before.drop_first());
                    }
                    upsert_one(entries, p.path, kind);
                }
                proof {
                    assert(upsert_all(entries@, Seq::<ProbedPath>::empty(), kind) == entries@);
                }
            },
            DebounceState::Idle => {
                proof {
                    assert(false);
                }
            },
        }
    }

    /// Whether the open window has elapsed at `now_ms` for the given window
    /// length.
    pub fn is_due(&self, now_ms: u64, window_ms: u64) -> (r: bool)
        ensures
            r == due_spec(*self, now_ms, window_ms),
    {
        match self {
            DebounceState::Idle => false,
            DebounceState::Collecting { start_ms, .. } => {
                now_ms >= *start_ms && now_ms - *start_ms >= window_ms
            },
        }
    }

    /// Closes the window and hands its coalesced entries out, in
    /// window-arrival order; the aggregator returns to idle.
    pub fn take_entries(&mut self) -> (r: Vec<DebounceEntry>)
        ensures
            r@ == old(self).entries_of(),
            *final(self) is Idle,
    {
        let mut taken = DebounceState::Idle;
        core::mem::swap(self, &mut taken);
        match taken {
            DebounceState::Idle => Vec::new(),
            DebounceState::Collecting { entries, .. } => entries,
        }
    }
}

/// Normalizes a flushed window: one event per surviving entry, position
/// `j`'s file type classified from probe `j`.
pub fn normalize_flush(entries: Vec<DebounceEntry>, probes: &Vec<Option<bool>>) -> (r: Vec<
    NormalizedEvent,
>)
    ensures
        r@ == flushed_events(entries@, probes@),
{
    let ghost all = entries@;
    let mut out: Vec<NormalizedEvent> = Vec::new();
    let mut rest = entries;
    while rest.len() != 0
        invariant
            out@.len() + rest@.len() == all.len(),
            rest@ =~= all.subrange(out@.len() as int, all.len() as int),
            out@ =~= flushed_events(all, probes@).subrange(0, out@.len() as int),
        decreases rest@.len(),
    {
        let ghost done = out@.len() as int;
        let e = rest.remove(0);
        let probe: Option<bool> = if out.len() < probes.len() {
            probes[out.len()]
        } else {
            None
        };
        let ev = NormalizedEvent {
            kind: crate::events::normalize_kind(e.kind),
            path: e.path,
            file_type: crate::events::classify_probe(probe),
        };
        out.push(ev);
        proof {
            assert(rest@ =~= all.subrange(done + 1, all.len() as int));
            assert(out@ =~= flushed_events(all, probes@).subrange(0, done + 1));
        }
    }
    proof {
        assert(out@ =~= flushed_events(all, probes@));
    }
    out
}

/// The entries that a burst of raw events, all for the same path, leaves in
/// a window opened while the aggregator was idle: the result of coalescing
/// the kinds one after the other.
pub open spec fn same_path_fold(path: String, kinds: Seq<RawKind>) -> Seq<DebounceEntry>
    decreases kinds.len(),
{
    if kinds.len() == 0 {
        Seq::<DebounceEntry>::empty()
    } else {
        upsert_entry(same_path_fold(path, kinds.drop_last()), path, kinds.last())
    }
}

/// Any number of raw events for the same path arriving within one window
/// collapse into exactly one surviving entry, carrying the kind of the most
/// recent of them (last-kind-wins).
pub proof fn lemma_same_path_collapses(path: String, kinds: Seq<RawKind>)
    requires
        kinds.len() > 0,
    ensures
        same_path_fold(path, kinds).len() == 1,
        same_path_fold(path, kinds)[0].path == path,
        same_path_fold(path, kinds)[0].kind == kinds.last(),
    decreases kinds.len(),
{
    if kinds.len() == 1 {
        assert(same_path_fold(path, kinds.drop_last()) =~= Seq::<DebounceEntry>::empty());
        assert(!has_entry(Seq::<DebounceEntry>::empty(), path@));
    } else {
        lemma_same_path_collapses(path, kinds.drop_last());
        let prev = same_path_fold(path, kinds.drop_last());
        assert(prev[0].path@ == path@);
        assert(has_entry(prev, path@));
        let k = entry_index(prev, path@);
        assert(0 <= k < prev.len() && prev[k].path@ == path@);
        assert(k == 0);
    }
}

/// Flushing the window such a burst leaves behind emits exactly one
/// normalized event for the path, and when every raw event of the burst was
/// a modification the emitted kind is `Modified`.
pub proof fn lemma_window_collapse_flush(
    path: String,
    kinds: Seq<RawKind>,
    probes: Seq<Option<bool>>,
)
    requires
        kinds.len() > 0,
    ensures
        flushed_events(same_path_fold(path, kinds), probes).len() == 1,
        flushed_events(same_path_fold(path, kinds), probes)[0].path == path,
        flushed_events(same_path_fold(path, kinds), probes)[0].kind == canonical_of(kinds.last()),
        (forall|i: int| 0 <= i < kinds.len() ==> kinds[i] is Modify) ==> flushed_events(
            same_path_fold(path, kinds),
            probes,
        )[0].kind is Modified,
{
    lemma_same_path_collapses(path, kinds);
}

/// A raw event naming a single path coalesces exactly as one observation of
/// that path: the bridge between `record`'s contract over `upsert_all` and
/// the single-path laws above.
pub proof fn lemma_single_path_step(entries: Seq<DebounceEntry>, p: ProbedPath, kind: RawKind)
    ensures
        upsert_all(entries, seq![p], kind) == upsert_entry(entries, p.path, kind),
{
    assert(seq![p].drop_first() =~= Seq::<ProbedPath>::empty());
    assert(upsert_all(upsert_entry(entries, p.path, kind), Seq::<ProbedPath>::empty(), kind)
        == upsert_entry(entries, p.path, kind));
}

} // verus!
