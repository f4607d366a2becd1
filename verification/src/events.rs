//! Event normalization: backend-native raw event kinds are mapped into the
//! canonical six-way taxonomy, and one raw event naming several paths is
//! expanded into one normalized event per path, in the raw event's order.

use vstd::prelude::*;

verus! {

/// Backend-native event taxonomy, as a plain value.  The host converts the
/// concrete backend's event kind into one of these before handing the event
/// to the core.
#[derive(Clone, Copy, Debug, PartialEq, Eq, Structural)]
pub enum RawKind {
    /// Catch-all kind some backends report when nothing more is known.
    Any,
    /// A file or directory was read or its access time changed.
    Access,
    /// A file or directory appeared.
    Create,
    /// Contents changed.
    Modify,
    /// A name changed.
    Rename,
    /// A file or directory disappeared.
    Remove,
    /// Metadata-only or platform-specific change.
    Meta,
}

/// Canonical event taxonomy exposed to the host.
#[derive(Clone, Copy, Debug, PartialEq, Eq, Structural)]
pub enum EventKind {
    Created,
    Modified,
    Removed,
    Renamed,
    /// Metadata-only / platform-specific change.
    Other,
    /// Raw kind not recognized; never guessed into a more specific kind.
    Unknown,
}

/// File or directory, as probed when the event is normalized.
#[derive(Clone, Copy, Debug, PartialEq, Eq, Structural)]
pub enum FileType {
    File,
    Directory,
}

/// One affected path together with the outcome of probing it: `Some(true)`
/// for a directory, `Some(false)` for a file, `None` when the probe failed
/// (for example because the path is already gone).
#[derive(Clone, Debug)]
pub struct ProbedPath {
    pub path: String,
    pub is_dir: Option<bool>,
}

/// One canonical event: kind, affected path, and file-type classification.
#[derive(Clone, Debug, PartialEq)]
pub struct NormalizedEvent {
    pub kind: EventKind,
    pub path: String,
    pub file_type: FileType,
}

/// The canonical kind of a raw kind.  Every recognized raw kind maps to its
/// canonical counterpart; anything else maps to `Unknown`.
pub open spec fn canonical_of(kind: RawKind) -> EventKind {
    match kind {
        RawKind::Create => EventKind::Created,
        RawKind::Modify => EventKind::Modified,
        RawKind::Rename => EventKind::Renamed,
        RawKind::Remove => EventKind::Removed,
        RawKind::Meta => EventKind::Other,
        RawKind::Any => EventKind::Unknown,
        RawKind::Access => EventKind::Unknown,
    }
}

/// File-type classification of a probe outcome: a failed probe defaults to
/// `File`.
pub open spec fn classify(is_dir: Option<bool>) -> FileType {
    match is_dir {
        Some(true) => FileType::Directory,
        Some(false) => FileType::File,
        None => FileType::File,
    }
}

/// The normalized events a raw event `(kind, paths)` expands to: one event
/// per affected path, in the raw event's path order.
pub open spec fn normalized_seq(kind: RawKind, paths: Seq<ProbedPath>) -> Seq<NormalizedEvent> {
    paths.map_values(
        |p: ProbedPath|
            NormalizedEvent { kind: canonical_of(kind), path: p.path, file_type: classify(p.is_dir) },
    )
}

/// Maps a raw kind into the canonical taxonomy.
pub fn normalize_kind(kind: RawKind) -> (r: EventKind)
    ensures
        r == canonical_of(kind),
{
    match kind {
        RawKind::Create => EventKind::Created,
        RawKind::Modify => EventKind::Modified,
        RawKind::Rename => EventKind::Renamed,
        RawKind::Remove => EventKind::Removed,
        RawKind::Meta => EventKind::Other,
        RawKind::Any => EventKind::Unknown,
        RawKind::Access => EventKind::Unknown,
    }
}

/// Classifies a probe outcome as file or directory.
pub fn classify_probe(is_dir: Option<bool>) -> (r: FileType)
    ensures
        r == classify(is_dir),
{
    match is_dir {
        Some(true) => FileType::Directory,
        Some(false) => FileType::File,
        None => FileType::File,
    }
}

/// Expands one raw event into its normalized events, consuming the probed
/// paths and preserving their order.
pub fn normalize_event(kind: RawKind, paths: Vec<ProbedPath>) -> (r: Vec<NormalizedEvent>)
    ensures
        r@ == normalized_seq(kind, paths@),
{
    let ghost all = paths@;
    let mut out: Vec<NormalizedEvent> = Vec::new();
    let mut rest = paths;
    while rest.len() != 0
        invariant
            out@.len() + rest@.len() == all.len(),
            rest@ =~= all.subrange(out@.len() as int, all.len() as int),
            out@ =~= normalized_seq(kind, all.subrange(0, out@.len() as int)),
        decreases rest@.len(),
    {
        let ghost done = out@.len() as int;
        let p = rest.remove(0);
        let ev = NormalizedEvent {
            kind: normalize_kind(kind),
            path: p.path,
            file_type: classify_probe(p.is_dir),
        };
        out.push(ev);
        proof {
            assert(rest@ =~= all.subrange(done + 1, all.len() as int));
            assert(all.subrange(0, done + 1) =~= all.subrange(0, done).push(all[done]));
            assert(out@ =~= normalized_seq(kind, all.subrange(0, done + 1)));
        }
    }
    proof {
        assert(all.subrange(0, all.len() as int) =~= all);
        assert(out@ =~= normalized_seq(kind, all));
    }
    out
}

/// The normalizer's taxonomy is exact: an unrecognized raw kind always maps
/// to `Unknown`, never to a guessed specific kind, and every emitted kind is
/// one of the six canonical variants by construction.
pub proof fn lemma_unrecognized_kind_is_unknown(kind: RawKind)
    requires
        kind !is Create,
        kind !is Modify,
        kind !is Rename,
        kind !is Remove,
        kind !is Meta,
    ensures
        canonical_of(kind) is Unknown,
{
}

} // verus!
