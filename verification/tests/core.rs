use fs_notify::backend::resolve_backend;
use fs_notify::backend::list_available_backends;
use fs_notify::backend::BackendId;
use fs_notify::backend::Platform;
use fs_notify::backend::ResolvedBackend;
use fs_notify::backend::WatcherError;
use fs_notify::events::classify_probe;
use fs_notify::events::normalize_event;
use fs_notify::events::normalize_kind;
use fs_notify::events::EventKind;
use fs_notify::events::FileType;
use fs_notify::events::ProbedPath;
use fs_notify::events::RawKind;
use fs_notify::registry::Registry;
use fs_notify::registry::StopOutcome;
use fs_notify::registry::SubscribeOutcome;
use fs_notify::path_to_string;

fn probed(path: &str, is_dir: Option<bool>) -> ProbedPath {
    ProbedPath { path: path.to_string(), is_dir }
}

fn fresh_watcher(reg: &mut Registry, debounce_ms: Option<u64>) -> u64 {
    reg.create_watcher(
        "D".to_string(),
        true,
        ResolvedBackend::Inotify,
        debounce_ms,
        SubscribeOutcome::Subscribed,
    )
    .expect("creation with a successful subscription must return an id")
}

#[test]
fn ids_strictly_increase_and_never_repeat() {
    let mut reg = Registry::new();
    let id1 = fresh_watcher(&mut reg, None);
    let id2 = fresh_watcher(&mut reg, None);
    assert!(id2 > id1);
    assert_eq!(reg.stop_watcher(id1), StopOutcome::Stopped);
    // The freed id is not handed out again.
    let id3 = fresh_watcher(&mut reg, None);
    assert!(id3 > id2);
    assert_ne!(id3, id1);
    assert_ne!(id3, id2);
}

#[test]
fn stop_then_drain_reports_not_found() {
    let mut reg = Registry::new();
    let id = fresh_watcher(&mut reg, None);
    assert_eq!(reg.stop_watcher(id), StopOutcome::Stopped);
    assert_eq!(reg.get_events(id), Err(WatcherError::NotFound));
}

#[test]
fn failed_subscription_returns_invalid_path_and_leaks_nothing() {
    let mut reg = Registry::new();
    let before = reg.session_count();
    let r = reg.create_watcher(
        "no/such/path".to_string(),
        false,
        ResolvedBackend::Inotify,
        None,
        SubscribeOutcome::PathMissing,
    );
    assert_eq!(r, Err(WatcherError::InvalidPath));
    assert_eq!(reg.session_count(), before);
    // No id was consumed either: the next success still gets the first id.
    let id = fresh_watcher(&mut reg, None);
    let id2 = fresh_watcher(&mut reg, None);
    assert_eq!(id2, id + 1);
}

#[test]
fn failed_initialization_returns_init_failure_unchanged() {
    let mut reg = Registry::new();
    let r = reg.create_watcher(
        "D".to_string(),
        false,
        ResolvedBackend::PollWatcher,
        None,
        SubscribeOutcome::InitFailed,
    );
    assert_eq!(r, Err(WatcherError::BackendInitFailure));
    assert_eq!(reg.session_count(), 0);
}

#[test]
fn stop_twice_stopped_then_not_found() {
    let mut reg = Registry::new();
    let id = fresh_watcher(&mut reg, None);
    assert_eq!(reg.stop_watcher(id), StopOutcome::Stopped);
    assert_eq!(reg.stop_watcher(id), StopOutcome::NotFound);
}

#[test]
fn raw_kinds_map_to_exactly_the_canonical_set() {
    assert_eq!(normalize_kind(RawKind::Create), EventKind::Created);
    assert_eq!(normalize_kind(RawKind::Modify), EventKind::Modified);
    assert_eq!(normalize_kind(RawKind::Rename), EventKind::Renamed);
    assert_eq!(normalize_kind(RawKind::Remove), EventKind::Removed);
    assert_eq!(normalize_kind(RawKind::Meta), EventKind::Other);
    // Unrecognized raw kinds are never guessed into a specific kind.
    assert_eq!(normalize_kind(RawKind::Any), EventKind::Unknown);
    assert_eq!(normalize_kind(RawKind::Access), EventKind::Unknown);
}

#[test]
fn probe_outcomes_classify_with_file_default() {
    assert_eq!(classify_probe(Some(true)), FileType::Directory);
    assert_eq!(classify_probe(Some(false)), FileType::File);
    assert_eq!(classify_probe(None), FileType::File);
}

#[test]
fn one_raw_event_expands_to_one_event_per_path_in_order() {
    let evs = normalize_event(
        RawKind::Create,
        vec![probed("D/a", Some(false)), probed("D/sub", Some(true)), probed("D/gone", None)],
    );
    assert_eq!(evs.len(), 3);
    assert_eq!(evs[0].path, "D/a");
    assert_eq!(evs[0].kind, EventKind::Created);
    assert_eq!(evs[0].file_type, FileType::File);
    assert_eq!(evs[1].path, "D/sub");
    assert_eq!(evs[1].file_type, FileType::Directory);
    assert_eq!(evs[2].path, "D/gone");
    assert_eq!(evs[2].file_type, FileType::File);
}

#[test]
fn listed_backends_always_resolve() {
    let platforms = [Platform::Linux, Platform::MacOs, Platform::Windows, Platform::Other];
    for platform in platforms {
        for id in list_available_backends(platform) {
            let resolved = resolve_backend(platform, id);
            assert!(
                resolved.is_ok(),
                "listed backend was rejected on its own platform"
            );
        }
    }
}

#[test]
fn recommended_resolves_to_the_platform_native_mechanism() {
    assert_eq!(
        resolve_backend(Platform::Linux, BackendId::Recommended),
        Ok(ResolvedBackend::Inotify)
    );
    assert_eq!(
        resolve_backend(Platform::MacOs, BackendId::Recommended),
        Ok(ResolvedBackend::Fsevent)
    );
    assert_eq!(
        resolve_backend(Platform::Windows, BackendId::Recommended),
        Ok(ResolvedBackend::ReadDirectoryChanges)
    );
    // No native mechanism: an explicit failure, not a silent fall back to
    // polling.
    assert_eq!(
        resolve_backend(Platform::Other, BackendId::Recommended),
        Err(WatcherError::UnsupportedBackend)
    );
}

#[test]
fn foreign_native_backends_are_unsupported() {
    assert_eq!(
        resolve_backend(Platform::MacOs, BackendId::Inotify),
        Err(WatcherError::UnsupportedBackend)
    );
    assert_eq!(
        resolve_backend(Platform::Linux, BackendId::Windows),
        Err(WatcherError::UnsupportedBackend)
    );
    assert_eq!(
        resolve_backend(Platform::Linux, BackendId::Kqueue),
        Err(WatcherError::UnsupportedBackend)
    );
    // Poll and Null are available everywhere.
    assert_eq!(
        resolve_backend(Platform::Other, BackendId::Poll),
        Ok(ResolvedBackend::PollWatcher)
    );
    assert_eq!(
        resolve_backend(Platform::Other, BackendId::Null),
        Ok(ResolvedBackend::NullWatcher)
    );
}

#[test]
fn create_then_file_events_drain_in_order() {
    let mut reg = Registry::new();
    let id = fresh_watcher(&mut reg, None);
    reg.deliver_raw_event(id, 0, RawKind::Create, vec![probed("D/a.txt", Some(false))]);
    let evs = reg.get_events(id).unwrap();
    assert_eq!(evs.len(), 1);
    assert_eq!(evs[0].kind, EventKind::Created);
    assert_eq!(evs[0].path, "D/a.txt");
    assert_eq!(evs[0].file_type, FileType::File);
    // The path is gone by the time the remove event is probed: the failed
    // probe classifies it as a file.
    reg.deliver_raw_event(id, 5, RawKind::Remove, vec![probed("D/a.txt", None)]);
    let evs = reg.get_events(id).unwrap();
    assert_eq!(evs.len(), 1);
    assert_eq!(evs[0].kind, EventKind::Removed);
    assert_eq!(evs[0].path, "D/a.txt");
    assert_eq!(evs[0].file_type, FileType::File);
}

#[test]
fn no_event_is_returned_twice() {
    let mut reg = Registry::new();
    let id = fresh_watcher(&mut reg, None);
    reg.deliver_raw_event(id, 0, RawKind::Modify, vec![probed("D/a", Some(false))]);
    assert_eq!(reg.get_events(id).unwrap().len(), 1);
    assert_eq!(reg.get_events(id).unwrap().len(), 0);
}

#[test]
fn burst_within_window_collapses_to_one_modified_event() {
    let mut reg = Registry::new();
    let id = fresh_watcher(&mut reg, Some(200));
    // Three writes within 50ms.
    reg.deliver_raw_event(id, 0, RawKind::Modify, vec![probed("D/b.txt", Some(false))]);
    reg.deliver_raw_event(id, 20, RawKind::Modify, vec![probed("D/b.txt", Some(false))]);
    reg.deliver_raw_event(id, 50, RawKind::Modify, vec![probed("D/b.txt", Some(false))]);
    // The window has not elapsed yet: nothing to flush, nothing to drain.
    assert_eq!(reg.pending_flush(id, 150), None);
    assert_eq!(reg.get_events(id).unwrap().len(), 0);
    // After the window elapses the burst flushes as exactly one event.
    let due = reg.pending_flush(id, 200).expect("window must be due");
    assert_eq!(due, vec!["D/b.txt".to_string()]);
    reg.flush_debounce(id, 200, vec![Some(false)]);
    let evs = reg.get_events(id).unwrap();
    assert_eq!(evs.len(), 1);
    assert_eq!(evs[0].kind, EventKind::Modified);
    assert_eq!(evs[0].path, "D/b.txt");
    assert_eq!(evs[0].file_type, FileType::File);
}

#[test]
fn events_spaced_beyond_window_each_flush_alone() {
    let mut reg = Registry::new();
    let id = fresh_watcher(&mut reg, Some(100));
    let mut total = 0;
    for start in [0u64, 500, 1000] {
        reg.deliver_raw_event(id, start, RawKind::Modify, vec![probed("D/b.txt", Some(false))]);
        reg.flush_debounce(id, start + 100, vec![Some(false)]);
        total += reg.get_events(id).unwrap().len();
    }
    assert_eq!(total, 3);
}

#[test]
fn debounce_keeps_the_last_kind_and_arrival_order() {
    let mut reg = Registry::new();
    let id = fresh_watcher(&mut reg, Some(100));
    reg.deliver_raw_event(id, 0, RawKind::Create, vec![probed("D/a", Some(false))]);
    reg.deliver_raw_event(id, 10, RawKind::Create, vec![probed("D/b", Some(false))]);
    reg.deliver_raw_event(id, 20, RawKind::Remove, vec![probed("D/a", Some(false))]);
    reg.flush_debounce(id, 100, vec![Some(false), Some(false)]);
    let evs = reg.get_events(id).unwrap();
    assert_eq!(evs.len(), 2);
    // "D/a" keeps its first-arrival position but carries the last kind.
    assert_eq!(evs[0].path, "D/a");
    assert_eq!(evs[0].kind, EventKind::Removed);
    assert_eq!(evs[1].path, "D/b");
    assert_eq!(evs[1].kind, EventKind::Created);
}

#[test]
fn info_reports_the_resolved_backend_and_health() {
    let mut reg = Registry::new();
    let id = reg
        .create_watcher(
            "D/sub".to_string(),
            false,
            ResolvedBackend::Fsevent,
            Some(42),
            SubscribeOutcome::Subscribed,
        )
        .unwrap();
    let d = reg.get_watcher_info(id).unwrap();
    assert_eq!(d.path, "D/sub");
    assert!(!d.recursive);
    assert_eq!(d.backend, ResolvedBackend::Fsevent);
    assert_eq!(d.debounce_ms, Some(42));
    assert!(!d.defunct);
    assert_eq!(
        reg.get_watcher_info(id + 1).unwrap_err(),
        WatcherError::NotFound
    );
}

#[test]
fn defunct_session_drains_empty_and_reports_health() {
    let mut reg = Registry::new();
    let id = fresh_watcher(&mut reg, None);
    reg.deliver_raw_event(id, 0, RawKind::Modify, vec![probed("D/a", Some(false))]);
    reg.mark_defunct(id);
    // An empty success, not an error; later deliveries are dropped.
    assert_eq!(reg.get_events(id).unwrap().len(), 0);
    reg.deliver_raw_event(id, 1, RawKind::Modify, vec![probed("D/a", Some(false))]);
    assert_eq!(reg.get_events(id).unwrap().len(), 0);
    assert!(reg.get_watcher_info(id).unwrap().defunct);
}

#[test]
fn paths_render_as_strings() {
    let owned = path_to_string("D/a.txt");
    assert_eq!(owned, "D/a.txt".to_string());
}

#[test]
fn raw_event_with_no_paths_yields_no_events() {
    let mut reg = Registry::new();
    let id = fresh_watcher(&mut reg, None);
    reg.deliver_raw_event(id, 0, RawKind::Modify, vec![]);
    assert_eq!(reg.get_events(id).unwrap().len(), 0);
}

#[test]
fn zero_length_window_is_due_immediately() {
    let mut reg = Registry::new();
    let id = fresh_watcher(&mut reg, Some(0));
    reg.deliver_raw_event(id, 7, RawKind::Modify, vec![probed("D/a", Some(false))]);
    assert_eq!(reg.pending_flush(id, 7), Some(vec!["D/a".to_string()]));
    reg.flush_debounce(id, 7, vec![Some(false)]);
    assert_eq!(reg.get_events(id).unwrap().len(), 1);
}

#[test]
fn missing_probes_default_to_file_on_flush() {
    let mut reg = Registry::new();
    let id = fresh_watcher(&mut reg, Some(10));
    reg.deliver_raw_event(id, 0, RawKind::Create, vec![probed("D/x", Some(true))]);
    reg.deliver_raw_event(id, 1, RawKind::Create, vec![probed("D/y", Some(true))]);
    // Only the first entry gets a probe outcome; the second falls back to
    // the file default.
    reg.flush_debounce(id, 10, vec![Some(true)]);
    let evs = reg.get_events(id).unwrap();
    assert_eq!(evs.len(), 2);
    assert_eq!(evs[0].file_type, FileType::Directory);
    assert_eq!(evs[1].file_type, FileType::File);
}
