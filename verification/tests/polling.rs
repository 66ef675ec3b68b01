use fs_watch::event::{EventKind, WatchError, WatchEvent};
use fs_watch::cycle::{diff, handle_creates, handle_deletes, poll_cycle, StreamItem};
use fs_watch::poll::{
    dir_watcher, DirWatcher, PollAction, PollConfig, PollInput, PollPhase, WAIT_TIME,
};
use fs_watch::snapshot::{get_dir_list, DirectorySnapshot};

fn paths(names: &[&str]) -> Vec<String> {
    names.iter().map(|name| name.to_string()).collect()
}

fn snapshot(names: &[&str]) -> DirectorySnapshot {
    DirectorySnapshot::from_paths(paths(names))
}

fn listed(names: &[&str]) -> PollInput {
    PollInput::Listed(Ok(snapshot(names)))
}

fn failed(kind: std::io::ErrorKind, message: &str) -> PollInput {
    PollInput::Listed(Err(std::io::Error::new(kind, message.to_string())))
}

fn event(item: &StreamItem) -> &WatchEvent {
    match item {
        Ok(event) => event,
        Err(error) => panic!("Got error from watch: {:?}", error),
    }
}

/// A watcher that has taken `names` as its first listing and waits for the
/// next one.
fn watching(names: &[&str]) -> DirWatcher {
    let mut watcher = dir_watcher(PollConfig::default());
    let step = watcher.step(listed(names));
    assert!(step.items.is_empty());
    assert_eq!(step.next, PollAction::List);
    watcher
}

/// One full cycle: a listing, then the pause after it.
fn cycle(watcher: &mut DirWatcher, input: PollInput) -> Vec<StreamItem> {
    let step = watcher.step(input);
    assert_eq!(step.next, PollAction::Sleep(WAIT_TIME));
    let woke = watcher.step(PollInput::Woke);
    assert!(woke.items.is_empty());
    assert_eq!(woke.next, PollAction::List);
    step.items
}

#[test]
fn test_handle_deletes() {
    let file1 = String::from("/foo/bar");
    let file2 = String::from("/bar/foo");

    let event = handle_deletes(vec![file1.clone(), file2.clone()])
        .expect("got None result, which means the channel was closed prematurely");

    assert!(event.kind().is_remove(), "Event is not a delete type");
    assert!(event.paths().len() == 2, "Event should contain two paths");
    assert!(event.paths().contains(&file1), "Missing expected path");
    assert!(event.paths().contains(&file2), "Missing expected path");
}

#[test]
fn test_handle_creates() {
    let file1 = String::from("/foo/bar");
    let file2 = String::from("/bar/foo");

    let event = handle_creates(vec![file1.clone(), file2.clone()])
        .expect("got None result, which means the channel was closed prematurely");

    assert!(event.kind().is_create(), "Event is not a create type");
    assert!(event.paths().len() == 2, "Event should contain two paths");
    assert!(event.paths().contains(&file1), "Missing expected path");
    assert!(event.paths().contains(&file2), "Missing expected path");
}

#[test]
fn test_watcher() {
    // Some "existing" files in the directory
    let mut watcher = watching(&["/tmp/w/old_foo.txt", "/tmp/w/old_bar.txt"]);

    // Two files appear and one of the old ones goes
    let items = cycle(
        &mut watcher,
        listed(&["/tmp/w/old_bar.txt", "/tmp/w/new_foo.txt", "/tmp/w/new_bar.txt"]),
    );

    let mut found_create = false;
    let mut found_delete = false;
    assert_eq!(items.len(), 2);
    for item in items.iter() {
        let event = event(item);
        match event.kind() {
            EventKind::Create => {
                if found_create {
                    panic!("Got second create event");
                }
                assert!(event.paths().len() == 2, "Expected two created paths");
                assert!(event.paths().contains(&"/tmp/w/new_foo.txt".to_string()));
                assert!(event.paths().contains(&"/tmp/w/new_bar.txt".to_string()));
                found_create = true;
            }
            EventKind::Remove => {
                if found_delete {
                    panic!("Got second delete event");
                }
                assert!(event.paths().len() == 1, "Expected 1 deleted path");
                assert!(event.paths().contains(&"/tmp/w/old_foo.txt".to_string()));
                found_delete = true;
            }
            _ => panic!("Event wasn't a create or remove"),
        }
    }
    assert!(found_create);
    assert!(found_delete);

    // We should only get two different events
    let items = cycle(
        &mut watcher,
        listed(&["/tmp/w/old_bar.txt", "/tmp/w/new_foo.txt", "/tmp/w/new_bar.txt"]),
    );
    assert!(items.is_empty(), "Should not have gotten another event");
}

#[test]
fn handle_creates_without_paths_gives_no_event() {
    assert_eq!(handle_creates(Vec::new()), None);
}

#[test]
fn handle_deletes_without_paths_gives_no_event() {
    assert_eq!(handle_deletes(Vec::new()), None);
}

#[test]
fn handle_creates_keeps_the_order_of_its_paths() {
    let event = handle_creates(paths(&["b", "a", "c"])).unwrap();
    assert_eq!(event.kind(), EventKind::Create);
    assert_eq!(event.paths(), &paths(&["b", "a", "c"]));
    assert_eq!(event.into_paths(), paths(&["b", "a", "c"]));
}

#[test]
fn handle_deletes_keeps_the_order_of_its_paths() {
    let event = handle_deletes(paths(&["z", "y"])).unwrap();
    assert_eq!(event.kind(), EventKind::Remove);
    assert_eq!(event.into_paths(), paths(&["z", "y"]));
}

#[test]
fn additions_give_one_create_event() {
    let cached = snapshot(&["a", "b"]);
    let current = snapshot(&["a", "c", "b", "d"]);
    let items = diff(&cached, &current);
    assert_eq!(items.len(), 1);
    let created = event(&items[0]);
    assert_eq!(created.kind(), EventKind::Create);
    assert_eq!(created.paths(), &paths(&["c", "d"]));
}

#[test]
fn removals_give_one_remove_event() {
    let cached = snapshot(&["a", "b", "c", "d"]);
    let current = snapshot(&["d", "b"]);
    let items = diff(&cached, &current);
    assert_eq!(items.len(), 1);
    let removed = event(&items[0]);
    assert_eq!(removed.kind(), EventKind::Remove);
    assert_eq!(removed.paths(), &paths(&["a", "c"]));
}

#[test]
fn no_change_gives_no_event() {
    let cached = snapshot(&["a", "b", "c"]);
    assert!(diff(&cached, &snapshot(&["a", "b", "c"])).is_empty());
    // the order of a listing does not matter
    assert!(diff(&cached, &snapshot(&["c", "a", "b"])).is_empty());
    assert!(diff(&snapshot(&[]), &snapshot(&[])).is_empty());
}

#[test]
fn creations_are_reported_before_removals() {
    let cached = snapshot(&["gone", "stays"]);
    let current = snapshot(&["stays", "fresh"]);
    let items = diff(&cached, &current);
    assert_eq!(items.len(), 2);
    assert_eq!(event(&items[0]).kind(), EventKind::Create);
    assert_eq!(event(&items[0]).paths(), &paths(&["fresh"]));
    assert_eq!(event(&items[1]).kind(), EventKind::Remove);
    assert_eq!(event(&items[1]).paths(), &paths(&["gone"]));
}

#[test]
fn cycle_replaces_the_cache_by_the_fresh_listing() {
    let mut cached = snapshot(&["a", "b"]);
    let items = poll_cycle(&mut cached, Ok(snapshot(&["b", "c"])));
    assert_eq!(items.len(), 2);
    // the fresh listing, not the union and not the old one
    assert_eq!(cached.paths(), &paths(&["b", "c"]));
    assert!(!cached.contains(&"a".to_string()));
}

#[test]
fn cache_follows_every_listing() {
    let mut watcher = watching(&["a"]);
    assert_eq!(watcher.cached().paths(), &paths(&["a"]));
    cycle(&mut watcher, listed(&["a", "b"]));
    assert_eq!(watcher.cached().paths(), &paths(&["a", "b"]));
    cycle(&mut watcher, listed(&["c"]));
    assert_eq!(watcher.cached().paths(), &paths(&["c"]));
    cycle(&mut watcher, listed(&[]));
    assert!(watcher.cached().paths().is_empty());
}

#[test]
fn failed_listing_gives_one_error_and_keeps_the_cache() {
    let mut cached = snapshot(&["a", "b"]);
    let failure = std::io::Error::new(std::io::ErrorKind::PermissionDenied, "denied");
    let items = poll_cycle(&mut cached, Err(failure));
    assert_eq!(items.len(), 1);
    match &items[0] {
        Err(WatchError::ListError(inner)) => {
            assert_eq!(inner.kind(), std::io::ErrorKind::PermissionDenied);
            assert_eq!(inner.to_string(), "denied");
        }
        other => panic!("expected a listing error, got {:?}", other),
    }
    assert_eq!(cached.paths(), &paths(&["a", "b"]));
}

#[test]
fn cycle_after_a_failure_compares_with_the_cache_from_before() {
    let mut watcher = watching(&["a", "b"]);
    let items = cycle(&mut watcher, failed(std::io::ErrorKind::NotFound, "gone"));
    assert_eq!(items.len(), 1);
    assert!(matches!(&items[0], Err(WatchError::ListError(_))));
    assert_eq!(watcher.cached().paths(), &paths(&["a", "b"]));

    let items = cycle(&mut watcher, listed(&["b", "c"]));
    assert_eq!(items.len(), 2);
    assert_eq!(event(&items[0]).kind(), EventKind::Create);
    assert_eq!(event(&items[0]).paths(), &paths(&["c"]));
    assert_eq!(event(&items[1]).kind(), EventKind::Remove);
    assert_eq!(event(&items[1]).paths(), &paths(&["a"]));
}

#[test]
fn failed_listing_is_followed_by_the_pause() {
    let mut watcher = watching(&[]);
    let step = watcher.step(failed(std::io::ErrorKind::Other, "broken"));
    assert_eq!(step.items.len(), 1);
    assert_eq!(step.next, PollAction::Sleep(WAIT_TIME));
    assert_eq!(watcher.phase(), PollPhase::Sleep);
}

#[test]
fn files_appear_then_one_goes_then_nothing_happens() {
    let mut watcher = watching(&[]);

    let items = cycle(&mut watcher, listed(&["a.txt", "b.txt"]));
    assert_eq!(items.len(), 1);
    assert_eq!(event(&items[0]).kind(), EventKind::Create);
    assert_eq!(event(&items[0]).paths(), &paths(&["a.txt", "b.txt"]));

    let items = cycle(&mut watcher, listed(&["b.txt"]));
    assert_eq!(items.len(), 1);
    assert_eq!(event(&items[0]).kind(), EventKind::Remove);
    assert_eq!(event(&items[0]).paths(), &paths(&["a.txt"]));

    let items = cycle(&mut watcher, listed(&["b.txt"]));
    assert!(items.is_empty());
}

#[test]
fn new_watcher_waits_for_its_first_listing() {
    let watcher = dir_watcher(PollConfig { interval: 7 });
    assert_eq!(watcher.phase(), PollPhase::Initialize);
    assert_eq!(watcher.pending(), PollAction::List);
    assert_eq!(watcher.interval(), 7);
    assert!(watcher.cached().paths().is_empty());
}

#[test]
fn first_listing_is_kept_and_not_reported() {
    let mut watcher = dir_watcher(PollConfig::default());
    let step = watcher.step(listed(&["old_foo.txt", "old_bar.txt"]));
    assert!(step.items.is_empty());
    assert_eq!(step.next, PollAction::List);
    assert_eq!(watcher.phase(), PollPhase::List);
    assert_eq!(watcher.cached().paths(), &paths(&["old_foo.txt", "old_bar.txt"]));
}

#[test]
fn failed_first_listing_leaves_an_empty_cache() {
    let mut watcher = dir_watcher(PollConfig::default());
    let step = watcher.step(failed(std::io::ErrorKind::NotFound, "not yet"));
    assert!(step.items.is_empty());
    assert_eq!(step.next, PollAction::List);
    assert_eq!(watcher.phase(), PollPhase::List);
    assert!(watcher.cached().paths().is_empty());

    // everything that is there at the next listing counts as created
    let items = cycle(&mut watcher, listed(&["x", "y"]));
    assert_eq!(items.len(), 1);
    assert_eq!(event(&items[0]).kind(), EventKind::Create);
    assert_eq!(event(&items[0]).paths(), &paths(&["x", "y"]));
}

#[test]
fn pause_is_the_configured_interval() {
    let mut watcher = dir_watcher(PollConfig { interval: 30 });
    watcher.step(listed(&[]));
    let step = watcher.step(listed(&["a"]));
    assert_eq!(step.next, PollAction::Sleep(30));
    assert_eq!(watcher.pending(), PollAction::Sleep(30));
    let step = watcher.step(PollInput::Woke);
    assert_eq!(step.next, PollAction::List);
    assert_eq!(watcher.phase(), PollPhase::List);
}

#[test]
fn default_pause_is_two_seconds() {
    assert_eq!(WAIT_TIME, 2);
    assert_eq!(PollConfig::default(), PollConfig { interval: 2 });
}

#[test]
fn unexpected_input_changes_nothing() {
    // a wake-up before the first listing
    let mut watcher = dir_watcher(PollConfig::default());
    let step = watcher.step(PollInput::Woke);
    assert!(step.items.is_empty());
    assert_eq!(step.next, PollAction::List);
    assert_eq!(watcher.phase(), PollPhase::Initialize);

    // a wake-up while a listing is awaited
    let mut watcher = watching(&["a"]);
    let step = watcher.step(PollInput::Woke);
    assert!(step.items.is_empty());
    assert_eq!(step.next, PollAction::List);
    assert_eq!(watcher.phase(), PollPhase::List);
    assert_eq!(watcher.cached().paths(), &paths(&["a"]));

    // a listing during the pause
    watcher.step(listed(&["a"]));
    assert_eq!(watcher.phase(), PollPhase::Sleep);
    let step = watcher.step(listed(&["a", "b"]));
    assert!(step.items.is_empty());
    assert_eq!(step.next, PollAction::Sleep(WAIT_TIME));
    assert_eq!(watcher.phase(), PollPhase::Sleep);
    assert_eq!(watcher.cached().paths(), &paths(&["a"]));
}

#[test]
fn listing_outcome_becomes_a_snapshot() {
    let listing = get_dir_list(Ok(paths(&["/d/a", "/d/b", "/d/a"]))).unwrap();
    assert_eq!(listing.paths(), &paths(&["/d/a", "/d/b"]));

    let failure = std::io::Error::new(std::io::ErrorKind::NotFound, "no such directory");
    let listing = get_dir_list(Err(failure));
    match listing {
        Err(inner) => {
            assert_eq!(inner.kind(), std::io::ErrorKind::NotFound);
            assert_eq!(inner.to_string(), "no such directory");
        }
        Ok(snapshot) => panic!("expected the failure, got {:?}", snapshot),
    }
}
