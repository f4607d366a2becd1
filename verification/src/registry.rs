//! Watcher registry: owns the set of active sessions, assigns strictly
//! increasing ids that are never reused, serializes lifecycle mutations and
//! routes event delivery and drains by id.
//!
//! The registry is the decision core: the host attempts the backend
//! subscription first and reports its outcome, so an id is allocated only
//! after the subscription succeeded and no failed attempt consumes an id or
//! leaves a partially created session behind.

use vstd::prelude::*;

use crate::backend::ResolvedBackend;
use crate::backend::WatcherError;
use crate::debounce::due_spec;
use crate::debounce::entries_distinct;
use crate::debounce::flushed_events;
use crate::debounce::normalize_flush;
use crate::debounce::upsert_all;
use crate::debounce::DebounceState;
use crate::events::normalize_event;
use crate::events::normalized_seq;
use crate::events::NormalizedEvent;
use crate::events::ProbedPath;
use crate::events::RawKind;

verus! {

/// What the host's backend subscription attempt came to, reported to the
/// registry before any session is stored.
#[derive(Clone, Copy, Debug, PartialEq, Eq, Structural)]
pub enum SubscribeOutcome {
    /// The backend watches the path; the raw-event source is live.
    Subscribed,
    /// The path was missing or unreadable at subscribe time.
    PathMissing,
    /// The native mechanism failed to initialize.
    InitFailed,
}

/// Outcome of `stop_watcher`: `NotFound` is a normal query result, not a
/// fault.
#[derive(Clone, Copy, Debug, PartialEq, Eq, Structural)]
pub enum StopOutcome {
    Stopped,
    NotFound,
}

/// One active watch: identity fixed at creation, plus the mutable event
/// queue and debounce window state.
#[derive(Debug)]
pub struct Session {
    pub id: u64,
    pub path: String,
    pub recursive: bool,
    /// The concrete resolved mechanism, never the requested alias.
    pub backend: ResolvedBackend,
    /// Debounce window length; `None` for an undebounced session.
    pub debounce_ms: Option<u64>,
    pub debounce: DebounceState,
    /// Normalized events accumulated since the last drain; deliberately
    /// unbounded, a host that never drains keeps them all.
    pub queue: Vec<NormalizedEvent>,
    /// Set when the session's raw-event source died; such a session only
    /// ever drains empty.
    pub defunct: bool,
}

impl Session {
    /// Internal consistency of one session.
    pub open spec fn wf(self) -> bool {
        &&& entries_distinct(self.debounce.entries_of())
        &&& self.debounce_ms is None ==> self.debounce is Idle
        &&& self.defunct ==> self.queue@.len() == 0 && self.debounce is Idle
    }

    /// The fields fixed at creation are the same in both sessions.
    pub open spec fn same_identity(self, other: Session) -> bool {
        &&& other.id == self.id
        &&& other.path == self.path
        &&& other.recursive == self.recursive
        &&& other.backend == self.backend
        &&& other.debounce_ms == self.debounce_ms
    }
}

/// What `get_watcher_info` reports of a session.
#[derive(Clone, Debug)]
pub struct WatcherDescription {
    pub path: String,
    pub recursive: bool,
    /// The concrete resolved mechanism in use.
    pub backend: ResolvedBackend,
    pub debounce_ms: Option<u64>,
    /// Health signal: true once the session's raw-event source died.
    pub defunct: bool,
}

/// The id-to-session registry.
pub struct Registry {
    pub next_id: u64,
    pub sessions: Vec<Session>,
}

impl Registry {
    /// Registry invariant: ids are unique, all below `next_id`, and every
    /// session is internally consistent.
    pub open spec fn wf(self) -> bool {
        &&& self.next_id >= 1
        &&& forall|i: int|
            0 <= i < self.sessions@.len() ==> (#[trigger] self.sessions@[i]).wf()
        &&& forall|i: int|
            0 <= i < self.sessions@.len() ==> (#[trigger] self.sessions@[i]).id < self.next_id
        &&& forall|i: int, j: int|
            0 <= i < j < self.sessions@.len() ==> (#[trigger] self.sessions@[i]).id != (
            #[trigger] self.sessions@[j]).id
    }

    /// A session with the id is active.
    pub open spec fn has_session(self, id: u64) -> bool {
        exists|i: int| 0 <= i < self.sessions@.len() && (#[trigger] self.sessions@[i]).id == id
    }

    /// The position of the session with the id.
    pub open spec fn idx_of(self, id: u64) -> int {
        choose|i: int| 0 <= i < self.sessions@.len() && (#[trigger] self.sessions@[i]).id == id
    }

    /// The session with the id.
    pub open spec fn session(self, id: u64) -> Session {
        self.sessions@[self.idx_of(id)]
    }
}

/// With unique ids, the session found at a position is the session looked
/// up under its id.
pub proof fn lemma_session_lookup(r: Registry, i: int)
    requires
        r.wf(),
        0 <= i < r.sessions@.len(),
    ensures
        r.has_session(r.sessions@[i].id),
        r.idx_of(r.sessions@[i].id) == i,
        r.session(r.sessions@[i].id) == r.sessions@[i],
{
    let id = r.sessions@[i].id;
    assert(r.has_session(id));
    let k = r.idx_of(id);
    assert(0 <= k < r.sessions@.len() && r.sessions@[k].id == id);
    if k < i {
        assert(r.sessions@[k].id != r.sessions@[i].id);
    } else if i < k {
        assert(r.sessions@[i].id != r.sessions@[k].id);
    }
}

/// Two registries of the same size whose sessions carry the same ids,
/// position by position, know the same ids.
proof fn lemma_same_ids_same_sessions(pre: Registry, post: Registry)
    requires
        post.sessions@.len() == pre.sessions@.len(),
        forall|j: int|
            0 <= j < pre.sessions@.len() ==> (#[trigger] post.sessions@[j]).id
                == pre.sessions@[j].id,
    ensures
        forall|other: u64| #[trigger] post.has_session(other) <==> pre.has_session(other),
{
    assert forall|other: u64| #[trigger] post.has_session(other) <==> pre.has_session(
        other,
    ) by {
        if post.has_session(other) {
            let k = post.idx_of(other);
            assert(0 <= k < post.sessions@.len() && post.sessions@[k].id == other);
            assert(pre.sessions@[k].id == other);
        }
        if pre.has_session(other) {
            let k = pre.idx_of(other);
            assert(0 <= k < pre.sessions@.len() && pre.sessions@[k].id == other);
            assert(post.sessions@[k].id == other);
        }
    }
}

/// The successful-create transition between two registry states: the
/// returned id is the pre-state's `next_id`, the counter advances past it,
/// and the stored sessions are kept.
pub open spec fn created(pre: Registry, post: Registry, id: u64) -> bool {
    &&& id == pre.next_id
    &&& post.next_id == pre.next_id + 1
    &&& post.sessions@.len() == pre.sessions@.len() + 1
    &&& post.sessions@.subrange(0, pre.sessions@.len() as int) == pre.sessions@
}

/// The session a successful create stores: the given identity, an idle
/// aggregator, an empty queue, not defunct.
pub open spec fn fresh_session(
    s: Session,
    id: u64,
    path: String,
    recursive: bool,
    backend: ResolvedBackend,
    debounce_ms: Option<u64>,
) -> bool {
    &&& s.id == id
    &&& s.path == path
    &&& s.recursive == recursive
    &&& s.backend == backend
    &&& s.debounce_ms == debounce_ms
    &&& s.debounce is Idle
    &&& s.queue@.len() == 0
    &&& !s.defunct
}

/// What a drain under an id yields: the accumulated events when the id is
/// active, `NotFound` otherwise.
pub open spec fn drain_result(r: Registry, id: u64) -> Result<Seq<NormalizedEvent>, WatcherError> {
    if r.has_session(id) {
        Ok(r.session(id).queue@)
    } else {
        Err(WatcherError::NotFound)
    }
}

/// A drained session: the queue is cleared and nothing else changes.
pub open spec fn drained(pre: Session, post: Session) -> bool {
    &&& pre.same_identity(post)
    &&& post.debounce == pre.debounce
    &&& post.defunct == pre.defunct
    &&& post.queue@.len() == 0
}

/// The effect of one delivered raw event on the session it addresses: a
/// defunct session drops it; an undebounced session appends the normalized
/// events; a debounced one coalesces it into the window, opening the window
/// at `now_ms` if the aggregator was idle.
pub open spec fn deliver_effect(
    pre: Session,
    post: Session,
    now_ms: u64,
    kind: RawKind,
    paths: Seq<ProbedPath>,
) -> bool {
    if pre.defunct {
        post == pre
    } else if pre.debounce_ms is None {
        &&& pre.same_identity(post)
        &&& post.defunct == pre.defunct
        &&& post.debounce == pre.debounce
        &&& post.queue@ == pre.queue@ + normalized_seq(kind, paths)
    } else {
        &&& pre.same_identity(post)
        &&& post.defunct == pre.defunct
        &&& post.queue@ == pre.queue@
        &&& post.debounce is Collecting
        &&& post.debounce.start_of() == if pre.debounce is Collecting {
            pre.debounce.start_of()
        } else {
            now_ms
        }
        &&& post.debounce.entries_of() == upsert_all(pre.debounce.entries_of(), paths, kind)
    }
}

/// A session whose open window has elapsed at `now_ms` and may flush.
pub open spec fn flush_ready(s: Session, now_ms: u64) -> bool {
    &&& !s.defunct
    &&& s.debounce_ms matches Some(w) && due_spec(s.debounce, now_ms, w)
}

/// The effect of a flush on the session: the window's coalesced entries are
/// normalized and appended to the queue in window-arrival order, and the
/// aggregator returns to idle.
pub open spec fn flush_effect(pre: Session, post: Session, probes: Seq<Option<bool>>) -> bool {
    &&& pre.same_identity(post)
    &&& post.defunct == pre.defunct
    &&& post.debounce is Idle
    &&& post.queue@ == pre.queue@ + flushed_events(pre.debounce.entries_of(), probes)
}

/// A session marked defunct: the flag is set, the queue and any open window
/// are discarded, the identity stays.
pub open spec fn defunct_effect(pre: Session, post: Session) -> bool {
    &&& pre.same_identity(post)
    &&& post.defunct
    &&& post.queue@.len() == 0
    &&& post.debounce is Idle
}

impl Registry {
    /// An empty registry; the first id handed out is 1.
    pub fn new() -> (r: Registry)
        ensures
            r.wf(),
            r.next_id == 1,
            r.sessions@.len() == 0,
    {
        Registry { next_id: 1, sessions: Vec::new() }
    }

    /// How many sessions are active.
    pub fn session_count(&self) -> (n: usize)
        ensures
            n == self.sessions@.len(),
    {
        self.sessions.len()
    }

    /// The position of the session with the id, if any.
    fn find_index(&self, id: u64) -> (r: Option<usize>)
        requires
            self.wf(),
        ensures
            match r {
                Some(i) => {
                    &&& i < self.sessions@.len()
                    &&& self.sessions@[i as int].id == id
                    &&& self.has_session(id)
                    &&& self.idx_of(id) == i
                },
                None => !self.has_session(id),
            },
    {
        let mut i: usize = 0;
        while i < self.sessions.len()
            invariant
                self.wf(),
                i <= self.sessions@.len(),
                forall|j: int| 0 <= j < i ==> (#[trigger] self.sessions@[j]).id != id,
            decreases self.sessions@.len() - i,
        {
            if self.sessions[i].id == id {
                proof {
                    lemma_session_lookup(*self, i as int);
                }
                return Some(i);
            }
            i = i + 1;
        }
        None
    }

    /// Registers a watcher after the host attempted the backend
    /// subscription.  Only a successful subscription stores a session and
    /// consumes an id; a failed one returns the matching error and leaves
    /// the registry, its size included, unchanged.
    pub fn create_watcher(
        &mut self,
        path: String,
        recursive: bool,
        backend: ResolvedBackend,
        debounce_ms: Option<u64>,
        outcome: SubscribeOutcome,
    ) -> (r: Result<u64, WatcherError>)
        requires
            old(self).wf(),
            old(self).next_id < u64::MAX,
        ensures
            final(self).wf(),
            outcome is Subscribed ==> {
                &&& r == Ok::<u64, WatcherError>(old(self).next_id)
                &&& created(*old(self), *final(self), old(self).next_id)
                &&& final(self).sessions@ == old(self).sessions@.push(
                    final(self).sessions@.last(),
                )
                &&& fresh_session(
                    final(self).sessions@.last(),
                    old(self).next_id,
                    path,
                    recursive,
                    backend,
                    debounce_ms,
                )
                &&& final(self).has_session(old(self).next_id)
                &&& forall|other: u64|
                    other != old(self).next_id ==> (#[trigger] final(self).has_session(other)
                        <==> old(self).has_session(other))
            },
            outcome is PathMissing ==> r == Err::<u64, WatcherError>(WatcherError::InvalidPath),
            outcome is InitFailed ==> r == Err::<u64, WatcherError>(
                WatcherError::BackendInitFailure,
            ),
            !(outcome is Subscribed) ==> final(self).next_id == old(self).next_id
                && final(self).sessions@ == old(self).sessions@,
    {
        match outcome {
            SubscribeOutcome::Subscribed => {
                let id = self.next_id;
                let session = Session {
                    id,
                    path,
                    recursive,
                    backend,
                    debounce_ms,
                    debounce: DebounceState::Idle,
                    queue: Vec::new(),
                    defunct: false,
                };
                self.sessions.push(session);
                self.next_id = id + 1;
                proof {
                    let pre = *old(self);
                    let post = *final(self);
                    assert(post.sessions@.subrange(0, pre.sessions@.len() as int)
                        =~= pre.sessions@);
                    assert(post.sessions@ == pre.sessions@.push(post.sessions@.last()));
                    assert forall|i: int, j: int|
                        0 <= i < j < post.sessions@.len() implies (
                    #[trigger] post.sessions@[i]).id != (#[trigger] post.sessions@[j]).id by {
                        if j == pre.sessions@.len() as int {
                            assert(post.sessions@[i] == pre.sessions@[i]);
                            assert(pre.sessions@[i].id < pre.next_id);
                        }
                    }
                    let n = pre.sessions@.len() as int;
                    assert(post.sessions@[n].id == pre.next_id);
                    assert(post.has_session(pre.next_id));
                    assert forall|other: u64|
                        other != pre.next_id implies (#[trigger] post.has_session(other)
                            <==> pre.has_session(other)) by {
                        if post.has_session(other) {
                            let k = post.idx_of(other);
                            assert(0 <= k < post.sessions@.len() && post.sessions@[k].id
                                == other);
                            if k < n {
                                assert(pre.sessions@[k].id == other);
                            }
                        }
                        if pre.has_session(other) {
                            let k = pre.idx_of(other);
                            assert(0 <= k < n && pre.sessions@[k].id == other);
                            assert(post.sessions@[k].id == other);
                        }
                    }
                }
                Ok(id)
            },
            SubscribeOutcome::PathMissing => Err(WatcherError::InvalidPath),
            SubscribeOutcome::InitFailed => Err(WatcherError::BackendInitFailure),
        }
    }

    /// Removes the session under the id.  `Stopped` exactly when it was
    /// active; afterwards the id is unknown to the registry and every other
    /// session is untouched.  An unknown id is `NotFound`, not a fault.
    pub fn stop_watcher(&mut self, id: u64) -> (r: StopOutcome)
        requires
            old(self).wf(),
        ensures
            final(self).wf(),
            final(self).next_id == old(self).next_id,
            r is Stopped <==> old(self).has_session(id),
            !final(self).has_session(id),
            r is Stopped ==> final(self).sessions@ == old(self).sessions@.remove(
                old(self).idx_of(id),
            ),
            r is NotFound ==> final(self).sessions@ == old(self).sessions@,
            forall|other: u64|
                other != id && old(self).has_session(other) ==> #[trigger] final(self).has_session(other) && final(self).session(other) == old(self).session(other),
            forall|other: u64|
                #[trigger] final(self).has_session(other) ==> old(self).has_session(other),
    {
        match self.find_index(id) {
            Some(i) => {
                self.sessions.remove(i);
                proof {
                    let pre = *old(self);
                    let post = *final(self);
                    let n = pre.sessions@.len() as int;
                    assert forall|j: int| 0 <= j < n - 1 implies #[trigger] post.sessions@[j]
                        == (if j < i as int {
                        pre.sessions@[j]
                    } else {
                        pre.sessions@[j + 1]
                    }) by {}
                    assert(post.wf());
                    assert forall|j: int| 0 <= j < n - 1 implies (
                    #[trigger] post.sessions@[j]).id != id by {
                        if j < i as int {
                            assert(pre.sessions@[j].id != pre.sessions@[i as int].id);
                        } else {
                            assert(pre.sessions@[i as int].id != pre.sessions@[j + 1].id);
                        }
                    }
                    assert(!post.has_session(id));
                    assert forall|other: u64|
                        other != id && pre.has_session(other) implies #[trigger] post.has_session(
                        other,
                    ) && post.session(other) == pre.session(other) by {
                        let k = pre.idx_of(other);
                        assert(0 <= k < n && pre.sessions@[k].id == other);
                        let k2 = if k < i as int {
                            k
                        } else {
                            k - 1
                        };
                        assert(post.sessions@[k2].id == other);
                        lemma_session_lookup(post, k2);
                        lemma_session_lookup(pre, k);
                    }
                    assert forall|other: u64| #[trigger] post.has_session(other) implies pre
                        .has_session(other) by {
                        let k2 = post.idx_of(other);
                        assert(0 <= k2 < n - 1 && post.sessions@[k2].id == other);
                        let k = if k2 < i as int {
                            k2
                        } else {
                            k2 + 1
                        };
                        assert(pre.sessions@[k].id == other);
                    }
                }
                StopOutcome::Stopped
            },
            None => StopOutcome::NotFound,
        }
    }

    /// Drains the events accumulated under the id since the last drain and
    /// clears them: non-blocking, and no event is ever returned twice.  An
    /// unknown id is `NotFound`, never a stale or empty success.
    pub fn get_events(&mut self, id: u64) -> (r: Result<Vec<NormalizedEvent>, WatcherError>)
        requires
            old(self).wf(),
        ensures
            final(self).wf(),
            final(self).next_id == old(self).next_id,
            r is Ok <==> old(self).has_session(id),
            r matches Ok(evs) ==> Ok::<Seq<NormalizedEvent>, WatcherError>(evs@) == drain_result(
                *old(self),
                id,
            ),
            r is Err ==> r == Err::<Vec<NormalizedEvent>, WatcherError>(WatcherError::NotFound)
                && final(self).sessions@ == old(self).sessions@,
            forall|other: u64|
                #[trigger] final(self).has_session(other) <==> old(self).has_session(other),
            old(self).has_session(id) ==> {
                &&& final(self).sessions@.len() == old(self).sessions@.len()
                &&& final(self).has_session(id)
                &&& final(self).idx_of(id) == old(self).idx_of(id)
                &&& drained(old(self).session(id), final(self).session(id))
                &&& forall|j: int|
                    0 <= j < old(self).sessions@.len() && j != old(self).idx_of(id)
                        ==> final(self).sessions@[j] == old(self).sessions@[j]
            },
    {
        match self.find_index(id) {
            Some(i) => {
                let mut out: Vec<NormalizedEvent> = Vec::new();
                core::mem::swap(&mut self.sessions[i].queue, &mut out);
                proof {
                    let pre = *old(self);
                    let post = *final(self);
                    assert(post.sessions@[i as int].id == id);
                    lemma_session_lookup(post, i as int);
                    lemma_same_ids_same_sessions(pre, post);
                }
                Ok(out)
            },
            None => Err(WatcherError::NotFound),
        }
    }

    /// Reports a session's path, recursion flag, the concrete resolved
    /// backend in use (never the requested alias), its window length, and
    /// whether it has gone defunct.
    pub fn get_watcher_info(&self, id: u64) -> (r: Result<WatcherDescription, WatcherError>)
        requires
            self.wf(),
        ensures
            r is Ok <==> self.has_session(id),
            r matches Ok(d) ==> {
                &&& d.path == self.session(id).path
                &&& d.recursive == self.session(id).recursive
                &&& d.backend == self.session(id).backend
                &&& d.debounce_ms == self.session(id).debounce_ms
                &&& d.defunct == self.session(id).defunct
            },
            r is Err ==> r == Err::<WatcherDescription, WatcherError>(WatcherError::NotFound),
    {
        match self.find_index(id) {
            Some(i) => {
                let s = &self.sessions[i];
                Ok(
                    WatcherDescription {
                        path: s.path.clone(),
                        recursive: s.recursive,
                        backend: s.backend,
                        debounce_ms: s.debounce_ms,
                        defunct: s.defunct,
                    },
                )
            },
            None => Err(WatcherError::NotFound),
        }
    }

    /// Hands one raw event from the session's raw-event source to the core:
    /// normalized and queued directly for an undebounced session, coalesced
    /// into the window for a debounced one, dropped for a defunct one.
    /// Events for an unknown id are ignored.
    pub fn deliver_raw_event(&mut self, id: u64, now_ms: u64, kind: RawKind, paths: Vec<
        ProbedPath,
    >)
        requires
            old(self).wf(),
        ensures
            final(self).wf(),
            final(self).next_id == old(self).next_id,
            !old(self).has_session(id) ==> final(self).sessions@ == old(self).sessions@,
            forall|other: u64|
                #[trigger] final(self).has_session(other) <==> old(self).has_session(other),
            old(self).has_session(id) ==> {
                &&& final(self).sessions@.len() == old(self).sessions@.len()
                &&& final(self).has_session(id)
                &&& final(self).idx_of(id) == old(self).idx_of(id)
                &&& deliver_effect(
                    old(self).session(id),
                    final(self).session(id),
                    now_ms,
                    kind,
                    paths@,
                )
                &&& forall|j: int|
                    0 <= j < old(self).sessions@.len() && j != old(self).idx_of(id)
                        ==> final(self).sessions@[j] == old(self).sessions@[j]
            },
    {
        let i = match self.find_index(id) {
            Some(i) => i,
            None => {
                return ;
            },
        };
        if self.sessions[i].defunct {
            return ;
        }
        let debounced = self.sessions[i].debounce_ms.is_some();
        if debounced {
            self.sessions[i].debounce.record(now_ms, kind, paths);
        } else {
            let mut evs = normalize_event(kind, paths);
            self.sessions[i].queue.append(&mut evs);
        }
        proof {
            let post = *final(self);
            assert(post.sessions@[i as int].id == id);
            lemma_session_lookup(post, i as int);
            lemma_same_ids_same_sessions(*old(self), post);
        }
    }

    /// The paths of the window that is due to flush at `now_ms`, in
    /// window-arrival order, for the host to probe; `None` when no flush is
    /// due under the id.
    pub fn pending_flush(&self, id: u64, now_ms: u64) -> (r: Option<Vec<String>>)
        requires
            self.wf(),
        ensures
            r is Some <==> self.has_session(id) && flush_ready(self.session(id), now_ms),
            r matches Some(v) ==> {
                &&& v@.len() == self.session(id).debounce.entries_of().len()
                &&& forall|j: int|
                    0 <= j < v@.len() ==> v@[j] == self.session(id).debounce.entries_of()[j].path
            },
    {
        let i = match self.find_index(id) {
            Some(i) => i,
            None => {
                return None;
            },
        };
        let s = &self.sessions[i];
        if s.defunct {
            return None;
        }
        let w = match s.debounce_ms {
            Some(w) => w,
            None => {
                return None;
            },
        };
        if !s.debounce.is_due(now_ms, w) {
            return None;
        }
        match &s.debounce {
            DebounceState::Collecting { entries, .. } => {
                let mut out: Vec<String> = Vec::new();
                let mut j: usize = 0;
                while j < entries.len()
                    invariant
                        j <= entries@.len(),
                        out@.len() == j,
                        forall|k: int| 0 <= k < j ==> out@[k] == entries@[k].path,
                    decreases entries@.len() - j,
                {
                    out.push(entries[j].path.clone());
                    j = j + 1;
                }
                Some(out)
            },
            DebounceState::Idle => {
                proof {
                    assert(false);
                }
                None
            },
        }
    }

    /// Flushes the window that is due at `now_ms` under the id: its entries
    /// are normalized against the probe outcomes, position by position, and
    /// appended to the session's queue; the aggregator returns to idle.
    /// When no flush is due, nothing changes.
    pub fn flush_debounce(&mut self, id: u64, now_ms: u64, probes: Vec<Option<bool>>)
        requires
            old(self).wf(),
        ensures
            final(self).wf(),
            final(self).next_id == old(self).next_id,
            !(old(self).has_session(id) && flush_ready(old(self).session(id), now_ms))
                ==> final(self).sessions@ == old(self).sessions@,
            forall|other: u64|
                #[trigger] final(self).has_session(other) <==> old(self).has_session(other),
            old(self).has_session(id) && flush_ready(old(self).session(id), now_ms) ==> {
                &&& final(self).sessions@.len() == old(self).sessions@.len()
                &&& final(self).has_session(id)
                &&& final(self).idx_of(id) == old(self).idx_of(id)
                &&& flush_effect(old(self).session(id), final(self).session(id), probes@)
                &&& forall|j: int|
                    0 <= j < old(self).sessions@.len() && j != old(self).idx_of(id)
                        ==> final(self).sessions@[j] == old(self).sessions@[j]
            },
    {
        let i = match self.find_index(id) {
            Some(i) => i,
            None => {
                return ;
            },
        };
        if self.sessions[i].defunct {
            return ;
        }
        let w = match self.sessions[i].debounce_ms {
            Some(w) => w,
            None => {
                return ;
            },
        };
        if !self.sessions[i].debounce.is_due(now_ms, w) {
            return ;
        }
        let entries = self.sessions[i].debounce.take_entries();
        let mut evs = normalize_flush(entries, &probes);
        self.sessions[i].queue.append(&mut evs);
        proof {
            let post = *final(self);
            assert(post.sessions@[i as int].id == id);
            lemma_session_lookup(post, i as int);
            lemma_same_ids_same_sessions(*old(self), post);
        }
    }

    /// Marks the session defunct after its raw-event source died: the
    /// session stays queryable, reports its health through
    /// `get_watcher_info`, and from now on only ever drains empty.
    pub fn mark_defunct(&mut self, id: u64)
        requires
            old(self).wf(),
        ensures
            final(self).wf(),
            final(self).next_id == old(self).next_id,
            !old(self).has_session(id) ==> final(self).sessions@ == old(self).sessions@,
            forall|other: u64|
                #[trigger] final(self).has_session(other) <==> old(self).has_session(other),
            old(self).has_session(id) ==> {
                &&& final(self).sessions@.len() == old(self).sessions@.len()
                &&& final(self).has_session(id)
                &&& final(self).idx_of(id) == old(self).idx_of(id)
                &&& defunct_effect(old(self).session(id), final(self).session(id))
                &&& forall|j: int|
                    0 <= j < old(self).sessions@.len() && j != old(self).idx_of(id)
                        ==> final(self).sessions@[j] == old(self).sessions@[j]
            },
    {
        let i = match self.find_index(id) {
            Some(i) => i,
            None => {
                return ;
            },
        };
        self.sessions[i].defunct = true;
        self.sessions[i].queue.clear();
        let _entries = self.sessions[i].debounce.take_entries();
        proof {
            let post = *final(self);
            assert(post.sessions@[i as int].id == id);
            lemma_session_lookup(post, i as int);
            lemma_same_ids_same_sessions(*old(self), post);
        }
    }
}

/// Ids are strictly increasing and never repeat: a successful create hands
/// out the pre-state's `next_id` and advances the counter past it, and no
/// registry operation ever lowers the counter, so a later successful create
/// always hands out a strictly larger id.
pub proof fn lemma_ids_strictly_increasing(
    pre1: Registry,
    post1: Registry,
    id1: u64,
    pre2: Registry,
    post2: Registry,
    id2: u64,
)
    requires
        created(pre1, post1, id1),
        post1.next_id <= pre2.next_id,
        created(pre2, post2, id2),
    ensures
        id2 > id1,
        id2 != id1,
{
}

/// A freshly created id was not active before the create: ids are never
/// reused within a registry's lifetime.
pub proof fn lemma_created_id_is_fresh(pre: Registry, post: Registry, id: u64)
    requires
        pre.wf(),
        created(pre, post, id),
    ensures
        !pre.has_session(id),
{
    assert forall|i: int| 0 <= i < pre.sessions@.len() implies (
    #[trigger] pre.sessions@[i]).id != id by {
        assert(pre.sessions@[i].id < pre.next_id);
    }
}

/// Stopping an id makes a following drain on it report `NotFound`, never a
/// stale or empty success: after `stop_watcher` the id is no longer active,
/// and a drain on an inactive id takes the `NotFound` branch.
pub proof fn lemma_drain_after_stop(post: Registry, id: u64)
    requires
        !post.has_session(id),
    ensures
        drain_result(post, id) == Err::<Seq<NormalizedEvent>, WatcherError>(WatcherError::NotFound),
{
}

/// A defunct session only ever drains empty: the registry invariant keeps
/// its queue empty, so a drain returns an empty success, not an error.
pub proof fn lemma_defunct_drains_empty(r: Registry, id: u64)
    requires
        r.wf(),
        r.has_session(id),
        r.session(id).defunct,
    ensures
        drain_result(r, id) == Ok::<Seq<NormalizedEvent>, WatcherError>(
            Seq::<NormalizedEvent>::empty(),
        ),
{
    let i = r.idx_of(id);
    assert(0 <= i < r.sessions@.len() && r.sessions@[i].id == id);
    assert(r.sessions@[i].wf());
    assert(r.session(id).queue@ =~= Seq::<NormalizedEvent>::empty());
}

} // verus!
