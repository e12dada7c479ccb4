//! Decisions the program takes around the catalog: what to do at start, and which
//! directory the file watcher follows.
use vstd::prelude::*;

verus! {

/// What the program does at start.
#[derive(Clone, Copy, Debug, PartialEq, Eq, Structural)]
pub enum StartupAction {
    /// Load the current directory from the store.
    LoadCurrentDirectory,
    /// Index the whole file system into the store.
    IndexAll,
}

/// At start, a store that holds entries (`stored_entries` of them) serves the current
/// directory; an empty one is filled by indexing the whole file system.
pub fn startup_action(stored_entries: u64) -> (r: StartupAction)
    ensures
        r == (if stored_entries > 0 { StartupAction::LoadCurrentDirectory } else { StartupAction::IndexAll }),
{
    if stored_entries > 0 {
        StartupAction::LoadCurrentDirectory
    } else {
        StartupAction::IndexAll
    }
}

/// How the file watcher changes: the directory to stop watching, if any, and the one
/// to watch.
#[derive(Clone, Debug)]
pub struct WatchChange {
    pub unwatch: Option<String>,
    pub watch: String,
}

/// The change of the watched directory once the requests `pending` (oldest first) have
/// arrived while `watched` was watched: only the newest request is watched, and the
/// directory watched so far, if any, is given up.
pub fn next_watch(watched: Option<String>, pending: Vec<String>) -> (r: WatchChange)
    requires
        pending@.len() > 0,
    ensures
        r.unwatch == watched,
        r.watch@ == pending@.last()@,
{
    let mut pending = pending;
    let newest = pending.pop().unwrap();
    WatchChange { unwatch: watched, watch: newest }
}

} // verus!
