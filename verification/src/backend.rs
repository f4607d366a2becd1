//! Backend selection: a closed set of backend identifiers, a deterministic
//! per-platform resolution of the portable `Recommended` alias, and the
//! enumeration of the identifiers available on a platform.  Enumeration and
//! resolution agree by construction: an identifier is listed if and only if
//! resolution accepts it.

use vstd::prelude::*;

verus! {

/// The platform the host is running on, as far as backend selection cares.
#[derive(Clone, Copy, Debug, PartialEq, Eq, Structural)]
pub enum Platform {
    Linux,
    MacOs,
    Windows,
    /// Any platform without a supported native mechanism.
    Other,
}

/// Requestable backend identifiers: the portable alias, the polling and
/// null mechanisms, and the platform-native mechanisms.
#[derive(Clone, Copy, Debug, PartialEq, Eq, Structural)]
pub enum BackendId {
    /// Portable alias, resolved at creation to the platform's native
    /// mechanism.
    Recommended,
    Poll,
    Inotify,
    Fsevent,
    /// Present in the identifier set for completeness; no platform resolves
    /// it, so it is never listed as available.
    Kqueue,
    Windows,
    /// No-op mechanism for testing and disabled watching.
    Null,
}

/// The concrete mechanism a session ends up with; immutable for the
/// session's lifetime.
#[derive(Clone, Copy, Debug, PartialEq, Eq, Structural)]
pub enum ResolvedBackend {
    Inotify,
    Fsevent,
    Kqueue,
    PollWatcher,
    ReadDirectoryChanges,
    NullWatcher,
}

/// Error taxonomy of the watcher core.
#[derive(Clone, Copy, Debug, PartialEq, Eq, Structural)]
pub enum WatcherError {
    /// Path missing or unreadable at subscribe time.
    InvalidPath,
    /// Requested mechanism not available on this platform.
    UnsupportedBackend,
    /// Native mechanism failed to initialize.
    BackendInitFailure,
    /// No active session under the given id; a normal query outcome, not a
    /// fault.
    NotFound,
}

/// The single native mechanism the `Recommended` alias resolves to on each
/// platform that has one.
pub open spec fn native_backend_of(platform: Platform) -> ResolvedBackend {
    match platform {
        Platform::Linux => ResolvedBackend::Inotify,
        Platform::MacOs => ResolvedBackend::Fsevent,
        Platform::Windows => ResolvedBackend::ReadDirectoryChanges,
        Platform::Other => ResolvedBackend::PollWatcher,
    }
}

/// Whether an identifier can be resolved on a platform.  `Poll` and `Null`
/// are always available; each native mechanism only on its platform;
/// `Recommended` only where a native mechanism exists (no silent fallback
/// to polling); `Kqueue` nowhere, since no supported platform resolves it.
pub open spec fn backend_available(platform: Platform, id: BackendId) -> bool {
    match id {
        BackendId::Recommended => platform !is Other,
        BackendId::Poll => true,
        BackendId::Inotify => platform is Linux,
        BackendId::Fsevent => platform is MacOs,
        BackendId::Kqueue => false,
        BackendId::Windows => platform is Windows,
        BackendId::Null => true,
    }
}

/// The mechanism an available identifier resolves to.
pub open spec fn resolution_of(platform: Platform, id: BackendId) -> ResolvedBackend {
    match id {
        BackendId::Recommended => native_backend_of(platform),
        BackendId::Poll => ResolvedBackend::PollWatcher,
        BackendId::Inotify => ResolvedBackend::Inotify,
        BackendId::Fsevent => ResolvedBackend::Fsevent,
        BackendId::Kqueue => ResolvedBackend::Kqueue,
        BackendId::Windows => ResolvedBackend::ReadDirectoryChanges,
        BackendId::Null => ResolvedBackend::NullWatcher,
    }
}

/// What resolving an identifier on a platform yields: the single mechanism
/// `resolution_of` gives when the identifier is available, and
/// `UnsupportedBackend` otherwise.
pub open spec fn resolve_result(platform: Platform, id: BackendId) -> Result<
    ResolvedBackend,
    WatcherError,
> {
    if backend_available(platform, id) {
        Ok(resolution_of(platform, id))
    } else {
        Err(WatcherError::UnsupportedBackend)
    }
}

/// Resolves a requested identifier on a platform: exactly the available
/// identifiers succeed, and an available one resolves to the single
/// mechanism `resolution_of` gives, deterministically.
pub fn resolve_backend(platform: Platform, id: BackendId) -> (r: Result<
    ResolvedBackend,
    WatcherError,
>)
    ensures
        r == resolve_result(platform, id),
{
    match id {
        BackendId::Recommended => match platform {
            Platform::Linux => Ok(ResolvedBackend::Inotify),
            Platform::MacOs => Ok(ResolvedBackend::Fsevent),
            Platform::Windows => Ok(ResolvedBackend::ReadDirectoryChanges),
            Platform::Other => Err(WatcherError::UnsupportedBackend),
        },
        BackendId::Poll => Ok(ResolvedBackend::PollWatcher),
        BackendId::Inotify => {
            if let Platform::Linux = platform {
                Ok(ResolvedBackend::Inotify)
            } else {
                Err(WatcherError::UnsupportedBackend)
            }
        },
        BackendId::Fsevent => {
            if let Platform::MacOs = platform {
                Ok(ResolvedBackend::Fsevent)
            } else {
                Err(WatcherError::UnsupportedBackend)
            }
        },
        BackendId::Kqueue => Err(WatcherError::UnsupportedBackend),
        BackendId::Windows => {
            if let Platform::Windows = platform {
                Ok(ResolvedBackend::ReadDirectoryChanges)
            } else {
                Err(WatcherError::UnsupportedBackend)
            }
        },
        BackendId::Null => Ok(ResolvedBackend::NullWatcher),
    }
}

/// Enumerates the identifiers legal on a platform: exactly those that
/// `resolve_backend` accepts, each listed once.
pub fn list_available_backends(platform: Platform) -> (r: Vec<BackendId>)
    ensures
        forall|id: BackendId| r@.contains(id) <==> backend_available(platform, id),
        forall|i: int, j: int| 0 <= i < j < r@.len() ==> r@[i] != r@[j],
{
    let mut backends: Vec<BackendId> = Vec::new();
    backends.push(BackendId::Recommended);
    backends.push(BackendId::Poll);
    backends.push(BackendId::Null);
    let r = match platform {
        Platform::Linux => {
            let mut b = backends;
            b.push(BackendId::Inotify);
            b
        },
        Platform::MacOs => {
            let mut b = backends;
            b.push(BackendId::Fsevent);
            b
        },
        Platform::Windows => {
            let mut b = backends;
            b.push(BackendId::Windows);
            b
        },
        Platform::Other => {
            let mut b = backends;
            b.remove(0);
            b
        },
    };
    proof {
        assert forall|id: BackendId| r@.contains(id) <==> backend_available(platform, id) by {
            if backend_available(platform, id) {
                assert(r@.contains(id)) by {
                    match id {
                        BackendId::Recommended => assert(r@[0] == id),
                        BackendId::Poll => {
                            if platform is Other {
                                assert(r@[0] == id);
                            } else {
                                assert(r@[1] == id);
                            }
                        },
                        BackendId::Null => {
                            if platform is Other {
                                assert(r@[1] == id);
                            } else {
                                assert(r@[2] == id);
                            }
                        },
                        _ => assert(r@[3] == id),
                    }
                }
            }
        }
    }
    r
}

/// Enumeration and creation never diverge: every identifier that
/// `list_available_backends` reports on a platform resolves successfully on
/// that same platform, so a `create` using it is never rejected with
/// `UnsupportedBackend`.
pub proof fn lemma_listed_backend_resolves(platform: Platform, id: BackendId)
    requires
        backend_available(platform, id),
    ensures
        resolve_result(platform, id) is Ok,
{
}

} // verus!
