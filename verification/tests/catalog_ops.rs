use lunvix::catalog::{
    cache_data, delete_entry, insert_entry, is_pruned_dir, load_directory_to_cache, reconcile_directory,
    rename_entry, Catalog,
};
use lunvix::model::{CachedChild, DiskEntry, DiskMetadata, FileKind, FileMetaData, FileNode, Platform, WalkedEntry};
use lunvix::nodes::{create_node_from_path, node_from_walk};

fn meta(modified: u64) -> DiskMetadata {
    DiskMetadata {
        is_dir: false,
        len: 42,
        created: Some(10),
        modified: Some(modified),
        accessed: None,
        readonly: false,
        hidden_attribute: None,
    }
}

fn node(name: &str, modified: u64) -> FileNode {
    FileNode {
        name: name.to_string(),
        kind: FileKind::File,
        metadata: FileMetaData { size: 1, created: None, modified, accessed: None, readonly: false, hidden: false },
        extension: None,
        lowercase_path: String::new(),
    }
}

#[test]
fn create_node_reads_name_extension_and_flags() {
    let n = create_node_from_path("/data/Report.TXT", Some(meta(7))).unwrap();
    assert_eq!(n.name, "Report.TXT");
    assert_eq!(n.extension.as_deref(), Some("TXT"));
    assert_eq!(n.lowercase_path, "/data/report.txt");
    assert_eq!(n.kind, FileKind::File);
    assert_eq!(n.metadata, FileMetaData { size: 42, created: Some(10), modified: 7, accessed: None, readonly: false, hidden: false });
    let hidden = create_node_from_path("/data/.env", Some(meta(7))).unwrap();
    assert!(hidden.metadata.hidden);
    assert_eq!(hidden.extension, None);
    let mut m = meta(0);
    m.modified = None;
    m.is_dir = true;
    let d = create_node_from_path("/data/dir", Some(m)).unwrap();
    assert_eq!(d.metadata.modified, 0);
    assert_eq!(d.kind, FileKind::Directory);
    assert!(create_node_from_path("/data/x", None).is_none());
    assert!(create_node_from_path("/", Some(meta(1))).is_none());
}

#[test]
fn walk_node_defaults_missing_parts_to_empty() {
    let n = node_from_walk("/data/Makefile", meta(3));
    assert_eq!(n.name, "Makefile");
    assert_eq!(n.extension.as_deref(), Some(""));
    let r = node_from_walk("/", meta(3));
    assert_eq!(r.name, "");
}

#[test]
fn insert_records_node_and_child_once() {
    let mut c = Catalog::new();
    let b = insert_entry(&mut c, "/dir/A.txt", node("A.txt", 1), Platform::Linux);
    assert_eq!(c.entry("/dir/A.txt").unwrap().name, "A.txt");
    assert_eq!(c.children("/dir").unwrap(), vec!["/dir/A.txt".to_string()]);
    assert_eq!(b.entry_puts.len(), 1);
    assert_eq!(b.entry_puts[0].0, "/dir/A.txt");
    assert_eq!(b.tree_puts, vec![("/dir".to_string(), vec!["/dir/A.txt".to_string()])]);
    assert!(b.entry_removes.is_empty());
    insert_entry(&mut c, "/dir/b.txt", node("b.txt", 1), Platform::Linux);
    let b2 = insert_entry(&mut c, "/dir/a.TXT", node("a.TXT", 2), Platform::Linux);
    assert_eq!(c.children("/dir").unwrap(), vec!["/dir/b.txt".to_string(), "/dir/a.TXT".to_string()]);
    assert_eq!(b2.tree_puts[0].1, vec!["/dir/b.txt".to_string(), "/dir/a.TXT".to_string()]);
    assert!(c.entry("/dir/A.txt").is_some());
}

#[test]
fn insert_without_parent_writes_nothing() {
    let mut c = Catalog::new();
    let b = insert_entry(&mut c, "/", node("root", 1), Platform::Linux);
    assert!(b.is_empty());
    assert!(c.entry("/").is_some());
    assert!(c.children("").is_none());
}

#[test]
fn insert_normalizes_windows_paths() {
    let mut c = Catalog::new();
    insert_entry(&mut c, r"\\?\c:/Users/x.txt", node("x.txt", 1), Platform::Windows);
    assert!(c.entry(r"C:\Users\x.txt").is_some());
}

#[test]
fn delete_after_insert_forgets_the_path() {
    let mut c = Catalog::new();
    insert_entry(&mut c, "/dir/keep.txt", node("keep.txt", 1), Platform::Linux);
    insert_entry(&mut c, "/dir/gone.txt", node("gone.txt", 1), Platform::Linux);
    let b = delete_entry(&mut c, "/dir/GONE.txt", Platform::Linux);
    assert!(c.entry("/dir/gone.txt").is_some());
    assert_eq!(c.children("/dir").unwrap(), vec!["/dir/keep.txt".to_string()]);
    assert_eq!(b.entry_removes, vec!["/dir/GONE.txt".to_string()]);
    let b2 = delete_entry(&mut c, "/dir/gone.txt", Platform::Linux);
    assert!(c.entry("/dir/gone.txt").is_none());
    assert_eq!(b2.tree_puts, vec![("/dir".to_string(), vec!["/dir/keep.txt".to_string()])]);
    let b3 = delete_entry(&mut c, "/other/x", Platform::Linux);
    assert_eq!(b3.entry_removes, vec!["/other/x".to_string()]);
    assert!(b3.tree_puts.is_empty());
    assert!(delete_entry(&mut c, "/", Platform::Linux).is_empty());
}

#[test]
fn rename_moves_the_cached_node() {
    let mut c = Catalog::new();
    insert_entry(&mut c, "/d/old.txt", node("old.txt", 5), Platform::Linux);
    let (b1, b2) = rename_entry(&mut c, "/d/old.txt", "/d/New.TXT", Platform::Linux).unwrap();
    assert!(c.entry("/d/old.txt").is_none());
    let n = c.entry("/d/New.TXT").unwrap();
    assert_eq!(n.name, "New.TXT");
    assert_eq!(n.lowercase_path, "/d/new.txt");
    assert_eq!(n.metadata.modified, 5);
    assert_eq!(b1.entry_removes, vec!["/d/old.txt".to_string()]);
    assert_eq!(b2.entry_puts[0].0, "/d/New.TXT");
    assert_eq!(c.children("/d").unwrap(), vec!["/d/New.TXT".to_string()]);
    assert!(rename_entry(&mut c, "/d/missing", "/d/x", Platform::Linux).is_none());
}

#[test]
fn reconcile_adds_refreshes_and_drops() {
    let mut c = Catalog::new();
    insert_entry(&mut c, "/d/stale.txt", node("stale.txt", 1), Platform::Linux);
    insert_entry(&mut c, "/d/same.txt", node("same.txt", 9), Platform::Linux);
    let listing = vec![
        DiskEntry { path: "/d/same.txt".to_string(), metadata: Some(meta(9)) },
        DiskEntry { path: "/d/new.rs".to_string(), metadata: Some(meta(3)) },
        DiskEntry { path: "/d/unreadable".to_string(), metadata: None },
    ];
    let b = reconcile_directory(&mut c, "/d", Some(listing.clone()), Platform::Linux);
    assert!(c.entry("/d/stale.txt").is_none());
    assert_eq!(c.entry("/d/new.rs").unwrap().extension.as_deref(), Some("rs"));
    assert_eq!(c.entry("/d/same.txt").unwrap().metadata.size, 1);
    assert_eq!(
        c.children("/d").unwrap(),
        vec!["/d/same.txt".to_string(), "/d/new.rs".to_string(), "/d/unreadable".to_string()]
    );
    assert_eq!(b.entry_removes, vec!["/d/stale.txt".to_string()]);
    assert_eq!(b.entry_puts.len(), 1);
    assert_eq!(b.tree_puts.len(), 1);
    let again = reconcile_directory(&mut c, "/d", Some(listing), Platform::Linux);
    assert!(again.is_empty());
    let newer = vec![DiskEntry { path: "/d/same.txt".to_string(), metadata: Some(meta(10)) }];
    let b2 = reconcile_directory(&mut c, "/d", Some(newer), Platform::Linux);
    assert_eq!(c.entry("/d/same.txt").unwrap().metadata.modified, 10);
    assert_eq!(b2.entry_removes.len(), 2);
    assert!(reconcile_directory(&mut c, "/d", None, Platform::Linux).is_empty());
}

#[test]
fn load_directory_restores_children_and_nodes() {
    let mut c = Catalog::new();
    let stored = vec![
        CachedChild { path: "/s/a".to_string(), node: Some(node("a", 1)) },
        CachedChild { path: "/s/b".to_string(), node: None },
    ];
    load_directory_to_cache(&mut c, "/s", Some(stored));
    assert_eq!(c.children("/s").unwrap(), vec!["/s/a".to_string(), "/s/b".to_string()]);
    assert!(c.entry("/s/a").is_some());
    assert!(c.entry("/s/b").is_none());
    load_directory_to_cache(&mut c, "/t", None);
    assert!(c.children("/t").is_none());
}

#[test]
fn index_walk_records_entries_below_root() {
    let mut c = Catalog::new();
    let walked = vec![
        WalkedEntry { depth: 0, path: "/r".to_string(), metadata: Some(meta(1)) },
        WalkedEntry { depth: 1, path: "/r/a.md".to_string(), metadata: Some(meta(1)) },
        WalkedEntry { depth: 1, path: "/r/sub".to_string(), metadata: Some(meta(1)) },
        WalkedEntry { depth: 2, path: "/r/sub/b".to_string(), metadata: Some(meta(1)) },
        WalkedEntry { depth: 2, path: "/r/sub/c".to_string(), metadata: None },
    ];
    let b = cache_data(&mut c, walked);
    assert!(c.entry("/r").is_none());
    assert!(c.entry("/r/sub/c").is_none());
    assert_eq!(c.children("/r").unwrap(), vec!["/r/a.md".to_string(), "/r/sub".to_string()]);
    assert_eq!(c.children("/r/sub").unwrap(), vec!["/r/sub/b".to_string()]);
    assert_eq!(b.entry_puts.len(), 3);
    let mut dirs: Vec<String> = b.tree_puts.iter().map(|(d, _)| d.clone()).collect();
    dirs.sort();
    assert_eq!(dirs, vec!["/r".to_string(), "/r/sub".to_string()]);
}

#[test]
fn index_walk_prunes_build_and_vcs_directories() {
    for name in ["node_modules", ".git", "target", "dist", "AppData"] {
        assert!(is_pruned_dir(name, true));
        assert!(!is_pruned_dir(name, false));
    }
    assert!(!is_pruned_dir("src", true));
    assert!(!is_pruned_dir("Target", true));
}
