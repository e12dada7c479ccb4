use lunvix::session::{next_watch, startup_action, StartupAction};

#[test]
fn start_loads_from_a_filled_store_and_indexes_an_empty_one() {
    assert_eq!(startup_action(0), StartupAction::IndexAll);
    assert_eq!(startup_action(1), StartupAction::LoadCurrentDirectory);
    assert_eq!(startup_action(u64::MAX), StartupAction::LoadCurrentDirectory);
}

#[test]
fn watcher_follows_only_the_newest_request() {
    let first = next_watch(None, vec!["/a".to_string()]);
    assert_eq!(first.unwatch, None);
    assert_eq!(first.watch, "/a");
    let next = next_watch(Some(first.watch), vec!["/b".to_string(), "/c".to_string()]);
    assert_eq!(next.unwatch.as_deref(), Some("/a"));
    assert_eq!(next.watch, "/c");
}
