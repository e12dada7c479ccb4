use std::collections::HashMap;

use lunvix::catalog::{
    delete_entry, insert_entry, load_directory_to_cache, reconcile_directory, record_walked_entry, tree_rows,
    Catalog, StoreBatch,
};
use lunvix::model::{CachedChild, DiskEntry, DiskMetadata, FileKind, FileMetaData, FileNode, Platform, WalkedEntry};
use lunvix::nodes::create_node_from_path;

#[derive(Default)]
struct Store {
    entries: HashMap<String, FileNode>,
    tree: HashMap<String, Vec<String>>,
}

impl Store {
    fn apply(&mut self, b: &StoreBatch) {
        for k in &b.entry_removes {
            self.entries.remove(k);
        }
        for (k, n) in &b.entry_puts {
            self.entries.insert(k.clone(), n.clone());
        }
        for (k, c) in &b.tree_puts {
            self.tree.insert(k.clone(), c.clone());
        }
    }

    fn children_of(&self, dir: &str) -> Option<Vec<CachedChild>> {
        self.tree.get(dir).map(|c| {
            c.iter().map(|p| CachedChild { path: p.clone(), node: self.entries.get(p).cloned() }).collect()
        })
    }
}

fn meta(modified: u64, hidden_attribute: Option<bool>) -> DiskMetadata {
    DiskMetadata {
        is_dir: false,
        len: 5,
        created: None,
        modified: Some(modified),
        accessed: Some(2),
        readonly: true,
        hidden_attribute,
    }
}

fn node(name: &str, modified: u64) -> FileNode {
    FileNode {
        name: name.to_string(),
        kind: FileKind::File,
        metadata: FileMetaData { size: 1, created: None, modified, accessed: None, readonly: false, hidden: false },
        extension: None,
        lowercase_path: name.to_lowercase(),
    }
}

fn same_directory(a: &Catalog, b: &Catalog, dir: &str) {
    let ca = a.children(dir).unwrap();
    assert_eq!(b.children(dir).unwrap(), ca);
    for p in &ca {
        assert_eq!(a.entry(p), b.entry(p));
    }
}

#[test]
fn store_follows_catalog_through_changes() {
    let mut c = Catalog::new();
    let mut store = Store::default();
    store.apply(&insert_entry(&mut c, "/d/a.txt", node("a.txt", 1), Platform::Linux));
    store.apply(&insert_entry(&mut c, "/d/b.txt", node("b.txt", 2), Platform::Linux));
    store.apply(&insert_entry(&mut c, "/d/A.TXT", node("A.TXT", 3), Platform::Linux));
    store.apply(&delete_entry(&mut c, "/d/b.txt", Platform::Linux));
    let listing = vec![
        DiskEntry { path: "/d/A.TXT".to_string(), metadata: Some(meta(3, None)) },
        DiskEntry { path: "/d/c.rs".to_string(), metadata: Some(meta(4, None)) },
    ];
    store.apply(&reconcile_directory(&mut c, "/d", Some(listing), Platform::Linux));

    let mut fresh = Catalog::new();
    load_directory_to_cache(&mut fresh, "/d", store.children_of("/d"));
    same_directory(&c, &fresh, "/d");
    assert_eq!(fresh.children("/d").unwrap(), vec!["/d/A.TXT".to_string(), "/d/c.rs".to_string()]);

    let mut again = Catalog::new();
    load_directory_to_cache(&mut again, "/d", store.children_of("/d"));
    load_directory_to_cache(&mut again, "/d", store.children_of("/d"));
    same_directory(&fresh, &again, "/d");
}

#[test]
fn walked_entries_and_tree_rows() {
    let mut c = Catalog::new();
    let root = WalkedEntry { depth: 0, path: "/w".to_string(), metadata: Some(meta(1, None)) };
    assert!(record_walked_entry(&mut c, &root).is_none());
    let a = WalkedEntry { depth: 1, path: "/w/.cfg".to_string(), metadata: Some(meta(1, None)) };
    let (p, n) = record_walked_entry(&mut c, &a).unwrap();
    assert_eq!(p, "/w/.cfg");
    assert!(n.metadata.hidden);
    assert_eq!(n.extension.as_deref(), Some(""));
    let b = WalkedEntry { depth: 1, path: "/w/b".to_string(), metadata: None };
    assert!(record_walked_entry(&mut c, &b).is_none());
    let d = WalkedEntry { depth: 2, path: "/w/x/y.md".to_string(), metadata: Some(meta(7, None)) };
    record_walked_entry(&mut c, &d).unwrap();
    let mut rows = tree_rows(&c);
    rows.sort();
    assert_eq!(
        rows,
        vec![
            ("/w".to_string(), vec!["/w/.cfg".to_string()]),
            ("/w/x".to_string(), vec!["/w/x/y.md".to_string()]),
        ]
    );
}

#[test]
fn hidden_attribute_decides_over_the_name() {
    let n = create_node_from_path("/data/plain.txt", Some(meta(1, Some(true)))).unwrap();
    assert!(n.metadata.hidden);
    assert!(n.metadata.readonly);
    assert_eq!(n.metadata.accessed, Some(2));
    let d = create_node_from_path("/data/.dotted", Some(meta(1, Some(false)))).unwrap();
    assert!(!d.metadata.hidden);
}

#[test]
fn paths_written_differently_share_one_entry() {
    let mut c = Catalog::new();
    let mut store = Store::default();
    let b = insert_entry(&mut c, "/d/./a.txt", node("a.txt", 1), Platform::Linux);
    assert_eq!(b.entry_puts[0].0, "/d/./a.txt");
    let parent = std::path::Path::new("/d/./a.txt").parent().unwrap().to_str().unwrap().to_string();
    assert_eq!(b.tree_puts[0].0, parent);
    store.apply(&b);
    assert!(store.entries.contains_key("/d/./a.txt"));
    assert!(c.entry("/d/a.txt").is_some());
    assert!(c.entry("/d//a.txt/").is_some());
    assert_eq!(c.children("/d/").unwrap(), vec!["/d/./a.txt".to_string()]);
    let mut fresh = Catalog::new();
    load_directory_to_cache(&mut fresh, &parent, store.children_of(&parent));
    assert_eq!(fresh.entry("/d/a.txt"), c.entry("/d/a.txt"));
    let listing = vec![DiskEntry { path: "/d/a.txt".to_string(), metadata: Some(meta(1, None)) }];
    let r = reconcile_directory(&mut c, "/d/", Some(listing), Platform::Linux);
    assert!(r.is_empty());
    let newer = vec![DiskEntry { path: "/d/a.txt".to_string(), metadata: Some(meta(5, None)) }];
    let r2 = reconcile_directory(&mut c, "/d/", Some(newer), Platform::Linux);
    assert_eq!(r2.entry_puts[0].0, "/d/a.txt");
    assert_eq!(r2.tree_puts[0].0, "/d/");
    assert_eq!(c.entry("/d/./a.txt").unwrap().metadata.modified, 5);
}

#[test]
fn directory_rows_keep_the_first_text_of_a_directory() {
    let mut c = Catalog::new();
    insert_entry(&mut c, "/w/./x/a", node("a", 1), Platform::Linux);
    insert_entry(&mut c, "/w/x/b", node("b", 1), Platform::Linux);
    let rows = tree_rows(&c);
    assert_eq!(rows, vec![("/w/./x".to_string(), vec!["/w/./x/a".to_string(), "/w/x/b".to_string()])]);
}
