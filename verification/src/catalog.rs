//! The in-memory catalog of cached entries and directory children, and the store
//! writes that keep the persistent copy in step with it.
use vstd::prelude::*;
use dashmap::DashMap;
use crate::model::{CachedChild, DiskEntry, DiskMetadata, FileNode, FileNodeView, Platform, WalkedEntry};
use crate::nodes::{create_node_from_path, node_for_path, node_from_walk, opt_node_view, walked_node};
use crate::paths::{file_name_of, name_or_empty};
use vstd::hash_set::StringHashSet;
use crate::paths::{key_of, normalize_path, normalized, parent_of, path_key, path_parent};
use crate::text::{ascii_lower, owned as owned_text, str_eq, to_ascii_lower};

verus! {

#[verifier::external_type_specification]
#[verifier::external_body]
#[verifier::reject_recursive_types(K)]
#[verifier::reject_recursive_types(V)]
#[verifier::reject_recursive_types(S)]
pub struct ExDashMap<K, V, S>(DashMap<K, V, S>);

/// A concurrent map from path text to cached node.
pub type NodeMap = DashMap<String, FileNode>;

/// A concurrent map from a directory's path text to the path texts of its children.
pub type TreeMap = DashMap<String, Vec<String>>;

/// What a node map holds, keyed by path text.
pub uninterp spec fn node_map_contents(m: NodeMap) -> Map<Seq<char>, FileNodeView>;

/// What a tree map holds: for each directory, the sequence of its children.
pub uninterp spec fn tree_map_contents(m: TreeMap) -> Map<Seq<char>, Seq<Seq<char>>>;

/// A concurrent map from a directory's key to the text it was first recorded under.
pub type NameMap = DashMap<String, String>;

/// What a name map holds.
pub uninterp spec fn name_map_contents(m: NameMap) -> Map<Seq<char>, Seq<char>>;

/// The texts of a sequence of strings.
pub open spec fn texts(v: Seq<String>) -> Seq<Seq<char>> {
    v.map_values(|s: String| s@)
}

/// The keys of a sequence of path texts (see `path_key`).
pub open spec fn keys_of(s: Seq<Seq<char>>) -> Seq<Seq<char>> {
    s.map_values(|p: Seq<char>| path_key(p))
}

/// The value of `k` in `m`, if it has one.
pub open spec fn lookup<K, V>(m: Map<K, V>, k: K) -> Option<V> {
    if m.contains_key(k) {
        Some(m[k])
    } else {
        None
    }
}

/// The node map with no entries.
pub open spec fn no_nodes() -> Map<Seq<char>, FileNodeView> {
    Map::empty()
}

/// The name map with no entries.
pub open spec fn no_names() -> Map<Seq<char>, Seq<char>> {
    Map::empty()
}

/// The tree map with no entries.
pub open spec fn no_children() -> Map<Seq<char>, Seq<Seq<char>>> {
    Map::empty()
}

/// Calls `DashMap::new`: an empty map.
#[verifier::external_body]
fn node_map_new() -> (map: NodeMap)
    ensures
        node_map_contents(map) == no_nodes(),
{
    DashMap::new()
}

/// Calls `DashMap::insert`: `k` now maps to `v`, all other keys are kept.
#[verifier::external_body]
fn node_map_insert(map: &mut NodeMap, k: String, v: FileNode)
    ensures
        node_map_contents(*final(map)) == node_map_contents(*old(map)).insert(k@, v@),
{
    map.insert(k, v);
}

/// Calls `DashMap::remove`: `k` no longer has a value, all other keys are kept.
#[verifier::external_body]
fn node_map_remove(map: &mut NodeMap, k: &str)
    ensures
        node_map_contents(*final(map)) == node_map_contents(*old(map)).remove(k@),
{
    map.remove(k);
}

/// Calls `DashMap::get` and hands out a copy of the value of `k`, if it has one.
#[verifier::external_body]
fn node_map_get(map: &NodeMap, k: &str) -> (r: Option<FileNode>)
    ensures
        match r {
            Some(n) => lookup(node_map_contents(*map), k@) == Some(n@),
            None => lookup(node_map_contents(*map), k@) is None,
        },
{
    map.get(k).map(|e| e.value().clone())
}

/// Calls `DashMap::new`: an empty map.
#[verifier::external_body]
fn tree_map_new() -> (map: TreeMap)
    ensures
        tree_map_contents(map) == no_children(),
{
    DashMap::new()
}

/// Calls `DashMap::insert`: `k` now maps to `v`, all other keys are kept.
#[verifier::external_body]
fn tree_map_insert(map: &mut TreeMap, k: String, v: Vec<String>)
    ensures
        tree_map_contents(*final(map)) == tree_map_contents(*old(map)).insert(k@, texts(v@)),
{
    map.insert(k, v);
}

/// Calls `DashMap::get` and hands out a copy of the children of `k`, if it has any entry.
#[verifier::external_body]
fn tree_map_get(map: &TreeMap, k: &str) -> (r: Option<Vec<String>>)
    ensures
        match r {
            Some(v) => lookup(tree_map_contents(*map), k@) == Some(texts(v@)),
            None => lookup(tree_map_contents(*map), k@) is None,
        },
{
    map.get(k).map(|e| e.value().clone())
}

/// Calls `DashMap::new`: an empty map.
#[verifier::external_body]
fn name_map_new() -> (map: NameMap)
    ensures
        name_map_contents(map) == no_names(),
{
    DashMap::new()
}

/// Calls `DashMap::insert`: `k` now maps to `v`, all other keys are kept.
#[verifier::external_body]
fn name_map_insert(map: &mut NameMap, k: String, v: String)
    ensures
        name_map_contents(*final(map)) == name_map_contents(*old(map)).insert(k@, v@),
{
    map.insert(k, v);
}

/// Calls `DashMap::get` and hands out a copy of the value of `k`, if it has one.
#[verifier::external_body]
fn name_map_get(map: &NameMap, k: &str) -> (r: Option<String>)
    ensures
        match r {
            Some(v) => lookup(name_map_contents(*map), k@) == Some(v@),
            None => lookup(name_map_contents(*map), k@) is None,
        },
{
    map.get(k).map(|e| e.value().clone())
}

/// Walks the map with `DashMap::iter` and hands out a copy of each (directory,
/// children) pair: every key of the map once, with its children.
#[verifier::external_body]
fn tree_map_snapshot(map: &TreeMap) -> (r: Vec<(String, Vec<String>)>)
    ensures
        forall|i: int| 0 <= i < r@.len() ==> lookup(tree_map_contents(*map), #[trigger] r@[i].0@) == Some(texts(r@[i].1@)),
        forall|i: int, j: int| 0 <= i < j < r@.len() ==> #[trigger] r@[i].0@ != #[trigger] r@[j].0@,
        forall|k: Seq<char>| tree_map_contents(*map).contains_key(k) ==> exists|i: int| 0 <= i < r@.len() && #[trigger] r@[i].0@ == k,
{
    map.iter().map(|e| (e.key().clone(), e.value().clone())).collect()
}

/// The abstract state of a catalog: cached nodes by path key, children (path texts) by
/// directory key (see `path_key`), and for each directory key the text the directory
/// was first recorded under, as a map keyed by `PathBuf` keeps its first key.
#[verifier::ext_equal]
pub struct CatalogModel {
    pub entries: Map<Seq<char>, FileNodeView>,
    pub tree: Map<Seq<char>, Seq<Seq<char>>>,
    pub names: Map<Seq<char>, Seq<char>>,
}

/// The abstract content of the persistent store: its entries table and its tree table,
/// both keyed by path text.
#[verifier::ext_equal]
pub struct StoreModel {
    pub entries: Map<Seq<char>, FileNodeView>,
    pub tree: Map<Seq<char>, Seq<Seq<char>>>,
}

/// The cached entries and the directory tree of the explorer.
pub struct Catalog {
    entries: NodeMap,
    directory_tree: TreeMap,
    dir_names: NameMap,
}

impl View for Catalog {
    type V = CatalogModel;

    closed spec fn view(&self) -> CatalogModel {
        CatalogModel {
            entries: node_map_contents(self.entries),
            tree: tree_map_contents(self.directory_tree),
            names: name_map_contents(self.dir_names),
        }
    }
}

/// `names` once the directory `dir` is recorded: its key keeps the text it already has,
/// or gets `dir`.
pub open spec fn named(names: Map<Seq<char>, Seq<char>>, dir: Seq<char>) -> Map<Seq<char>, Seq<char>> {
    if names.contains_key(path_key(dir)) {
        names
    } else {
        names.insert(path_key(dir), dir)
    }
}

/// The text of the directory with key `k`: the text it was first recorded under, or
/// the key itself.
pub open spec fn dir_name(m: CatalogModel, k: Seq<char>) -> Seq<char> {
    match lookup(m.names, k) {
        Some(n) => n,
        None => k,
    }
}

/// Records the text of directory `dir` under its key `dir_key`, unless the key has one.
fn keep_name(names: &mut NameMap, dir_key: &String, dir: &String)
    requires
        dir_key@ == path_key(dir@),
    ensures
        name_map_contents(*final(names)) == named(name_map_contents(*old(names)), dir@),
{
    match name_map_get(names, dir_key.as_str()) {
        Some(_) => {},
        None => name_map_insert(names, dir_key.clone(), dir.clone()),
    }
}

/// Writes for the persistent store, applied in this order in one transaction: remove
/// `entry_removes` from the entries table, put `entry_puts` into it, then put
/// `tree_puts` into the tree table.
pub struct StoreBatch {
    pub entry_removes: Vec<String>,
    pub entry_puts: Vec<(String, FileNode)>,
    pub tree_puts: Vec<(String, Vec<String>)>,
}

/// The abstract content of a store batch.
#[verifier::ext_equal]
pub struct BatchModel {
    pub removes: Seq<Seq<char>>,
    pub puts: Seq<(Seq<char>, FileNodeView)>,
    pub tree_puts: Seq<(Seq<char>, Seq<Seq<char>>)>,
}

impl View for StoreBatch {
    type V = BatchModel;

    open spec fn view(&self) -> BatchModel {
        BatchModel {
            removes: texts(self.entry_removes@),
            puts: self.entry_puts@.map_values(|e: (String, FileNode)| (e.0@, e.1@)),
            tree_puts: self.tree_puts@.map_values(|e: (String, Vec<String>)| (e.0@, texts(e.1@))),
        }
    }
}

/// `t` with the (directory, children) pairs of `rows` put in, in order.
pub open spec fn put_all_tree(t: Map<Seq<char>, Seq<Seq<char>>>, rows: Seq<(Seq<char>, Seq<Seq<char>>)>) -> Map<Seq<char>, Seq<Seq<char>>>
    decreases rows.len(),
{
    if rows.len() == 0 {
        t
    } else {
        put_all_tree(t, rows.drop_last()).insert(rows.last().0, rows.last().1)
    }
}

/// The content of a store after a batch is applied to it in the documented order.
pub open spec fn applied(store: StoreModel, b: BatchModel) -> StoreModel {
    StoreModel {
        entries: put_all(remove_keys(store.entries, b.removes), b.puts),
        tree: put_all_tree(store.tree, b.tree_puts),
    }
}

/// The children of `dir` as a store holds them under the text `dir`, each with the node
/// stored under its text.
pub open spec fn stored_children(store: StoreModel, dir: Seq<char>) -> Option<Seq<(Seq<char>, Option<FileNodeView>)>> {
    match lookup(store.tree, dir) {
        None => None,
        Some(c) => Some(c.map_values(|p: Seq<char>| (p, lookup(store.entries, p)))),
    }
}

/// The batch with no writes.
pub open spec fn no_writes() -> BatchModel {
    BatchModel { removes: Seq::empty(), puts: Seq::empty(), tree_puts: Seq::empty() }
}

impl StoreBatch {
    /// A batch with no writes.
    pub fn new() -> (b: StoreBatch)
        ensures
            b@ == no_writes(),
    {
        let b = StoreBatch { entry_removes: Vec::new(), entry_puts: Vec::new(), tree_puts: Vec::new() };
        assert(b@ =~= no_writes());
        b
    }

    /// Whether the batch holds no write.
    pub fn is_empty(&self) -> (r: bool)
        ensures
            r == (self@ == no_writes()),
    {
        let r = self.entry_removes.len() == 0 && self.entry_puts.len() == 0 && self.tree_puts.len() == 0;
        if r {
            assert(self@ =~= no_writes());
        } else {
            assert(self@.removes.len() == self.entry_removes@.len());
            assert(self@.puts.len() == self.entry_puts@.len());
            assert(self@.tree_puts.len() == self.tree_puts@.len());
        }
        r
    }
}

impl Catalog {
    /// A catalog with no entries and no directories.
    pub fn new() -> (c: Catalog)
        ensures
            c@.entries == no_nodes(),
            c@.tree == no_children(),
            c@.names == no_names(),
    {
        Catalog { entries: node_map_new(), directory_tree: tree_map_new(), dir_names: name_map_new() }
    }

    /// A copy of the node cached for `path` (by its key), if there is one.
    pub fn entry(&self, path: &str) -> (r: Option<FileNode>)
        ensures
            match r {
                Some(n) => lookup(self@.entries, path_key(path@)) == Some(n@),
                None => lookup(self@.entries, path_key(path@)) is None,
            },
    {
        node_map_get(&self.entries, key_of(path).as_str())
    }

    /// A copy of the children recorded for directory `dir` (by its key), if it has an entry.
    pub fn children(&self, dir: &str) -> (r: Option<Vec<String>>)
        ensures
            match r {
                Some(v) => lookup(self@.tree, path_key(dir@)) == Some(texts(v@)),
                None => lookup(self@.tree, path_key(dir@)) is None,
            },
    {
        tree_map_get(&self.directory_tree, key_of(dir).as_str())
    }
}

/// Whether two path texts are equal but for ASCII case.
pub open spec fn case_variant(a: Seq<char>, b: Seq<char>) -> bool {
    ascii_lower(a) == ascii_lower(b)
}

/// `c` without the paths that are case variants of `p`, order kept.
pub open spec fn without_variants(c: Seq<Seq<char>>, p: Seq<char>) -> Seq<Seq<char>>
    decreases c.len(),
{
    if c.len() == 0 {
        c
    } else {
        let r = without_variants(c.drop_last(), p);
        if case_variant(c.last(), p) {
            r
        } else {
            r.push(c.last())
        }
    }
}

/// The children of a directory after `p` is recorded in it: the old children without
/// the case variants of `p`, then `p`.
pub open spec fn children_with(old: Option<Seq<Seq<char>>>, p: Seq<char>) -> Seq<Seq<char>> {
    match old {
        Some(c) => without_variants(c, p).push(p),
        None => seq![p],
    }
}

/// Copy of a vector of strings.
pub fn clone_strings(v: &Vec<String>) -> (r: Vec<String>)
    ensures
        r@ == v@,
{
    let mut r: Vec<String> = Vec::new();
    let mut i: usize = 0;
    while i < v.len()
        invariant
            i <= v@.len(),
            r@ == v@.take(i as int),
        decreases v@.len() - i,
    {
        r.push(v[i].clone());
        assert(v@.take(i + 1) =~= v@.take(i as int).push(v@[i as int]));
        i = i + 1;
    }
    assert(v@.take(v@.len() as int) =~= v@);
    r
}

/// The children `c` without the case variants of the path whose ASCII lowercase is
/// `p_lower`.
fn drop_variants(c: &Vec<String>, p_lower: &String, Ghost(p): Ghost<Seq<char>>) -> (r: Vec<String>)
    requires
        p_lower@ == ascii_lower(p),
    ensures
        texts(r@) == without_variants(texts(c@), p),
{
    let mut r: Vec<String> = Vec::new();
    let mut i: usize = 0;
    while i < c.len()
        invariant
            p_lower@ == ascii_lower(p),
            i <= c@.len(),
            texts(r@) == without_variants(texts(c@).take(i as int), p),
        decreases c@.len() - i,
    {
        let q = to_ascii_lower(c[i].as_str());
        assert(texts(c@).take(i + 1).drop_last() =~= texts(c@).take(i as int));
        if !(q == *p_lower) {
            r.push(c[i].clone());
            assert(texts(r@) =~= without_variants(texts(c@).take(i as int), p).push(c@[i as int]@));
        }
        i = i + 1;
    }
    assert(texts(c@).take(c@.len() as int) =~= texts(c@));
    r
}

/// The catalog and store writes after recording `node` at `path` (see `insert_entry`).
pub open spec fn inserted(m: CatalogModel, path: Seq<char>, node: FileNodeView, platform: Platform) -> (CatalogModel, BatchModel) {
    let p = normalized(path, platform);
    let entries = m.entries.insert(path_key(p), node);
    match path_parent(p) {
        None => (CatalogModel { entries, ..m }, no_writes()),
        Some(par) => {
            let c = children_with(lookup(m.tree, path_key(par)), p);
            (
                CatalogModel { entries, tree: m.tree.insert(path_key(par), c), names: named(m.names, par) },
                BatchModel { removes: Seq::empty(), puts: seq![(p, node)], tree_puts: seq![(par, c)] },
            )
        },
    }
}

/// The catalog and store writes after forgetting `path` (see `delete_entry`).
pub open spec fn deleted(m: CatalogModel, path: Seq<char>, platform: Platform) -> (CatalogModel, BatchModel) {
    let p = normalized(path, platform);
    match path_parent(p) {
        None => (m, no_writes()),
        Some(par) => {
            let entries = m.entries.remove(path_key(p));
            match lookup(m.tree, path_key(par)) {
                None => (
                    CatalogModel { entries, ..m },
                    BatchModel { removes: seq![p], puts: Seq::empty(), tree_puts: Seq::empty() },
                ),
                Some(c) => {
                    let c2 = without_variants(c, p);
                    (
                        CatalogModel { entries, tree: m.tree.insert(path_key(par), c2), names: m.names },
                        BatchModel { removes: seq![p], puts: Seq::empty(), tree_puts: seq![(par, c2)] },
                    )
                },
            }
        },
    }
}

/// Records `node` at the normal form `p` of `path`: the node is cached under the key of
/// `p` (see `path_key`); where `p` has a parent directory, `p` replaces its case variants
/// among that directory's children (or becomes its only child), and the directory's
/// key keeps the text it was first recorded under. The batch writes the node under the
/// text `p` and the new children under the parent's text. A path with no parent is
/// cached and nothing is written.
pub fn insert_entry(catalog: &mut Catalog, path: &str, node: FileNode, platform: Platform) -> (batch: StoreBatch)
    ensures
        (final(catalog)@, batch@) == inserted(old(catalog)@, path@, node@, platform),
{
    let p = normalize_path(path, platform);
    let pk = key_of(p.as_str());
    node_map_insert(&mut catalog.entries, pk.clone(), node.copied());
    match parent_of(p.as_str()) {
        None => StoreBatch::new(),
        Some(par) => {
            let park = key_of(par.as_str());
            let p_lower = to_ascii_lower(p.as_str());
            let mut children = match tree_map_get(&catalog.directory_tree, park.as_str()) {
                Some(c) => drop_variants(&c, &p_lower, Ghost(p@)),
                None => Vec::new(),
            };
            children.push(p.clone());
            proof {
                let c = children_with(lookup(old(catalog)@.tree, path_key(par@)), p@);
                assert(texts(children@) =~= c);
            }
            tree_map_insert(&mut catalog.directory_tree, park.clone(), clone_strings(&children));
            keep_name(&mut catalog.dir_names, &park, &par);
            let batch = StoreBatch {
                entry_removes: Vec::new(),
                entry_puts: vec![(p, node)],
                tree_puts: vec![(par, children)],
            };
            proof {
                let (m2, b2) = inserted(old(catalog)@, path@, node@, platform);
                assert(batch@ =~= b2);
                assert(final(catalog)@ =~= m2);
            }
            batch
        },
    }
}

/// Forgets the normal form `p` of `path`, where `p` has a parent directory: the node
/// cached under the key of `p` is dropped, the case variants of `p` leave that
/// directory's children if it has an entry, and the batch removes the text `p` and
/// writes the new children under the parent's text.
/// A path with no parent changes nothing.
pub fn delete_entry(catalog: &mut Catalog, path: &str, platform: Platform) -> (batch: StoreBatch)
    ensures
        (final(catalog)@, batch@) == deleted(old(catalog)@, path@, platform),
{
    let p = normalize_path(path, platform);
    match parent_of(p.as_str()) {
        None => StoreBatch::new(),
        Some(par) => {
            let pk = key_of(p.as_str());
            let park = key_of(par.as_str());
            node_map_remove(&mut catalog.entries, pk.as_str());
            let p_lower = to_ascii_lower(p.as_str());
            match tree_map_get(&catalog.directory_tree, park.as_str()) {
                None => {
                    let batch = StoreBatch { entry_removes: vec![p], entry_puts: Vec::new(), tree_puts: Vec::new() };
                    proof {
                        let (m2, b2) = deleted(old(catalog)@, path@, platform);
                        assert(batch@ =~= b2);
                        assert(final(catalog)@ =~= m2);
                    }
                    batch
                },
                Some(c) => {
                    let children = drop_variants(&c, &p_lower, Ghost(p@));
                    tree_map_insert(&mut catalog.directory_tree, park.clone(), clone_strings(&children));
                    let batch = StoreBatch {
                        entry_removes: vec![p],
                        entry_puts: Vec::new(),
                        tree_puts: vec![(par, children)],
                    };
                    proof {
                        let (m2, b2) = deleted(old(catalog)@, path@, platform);
                        assert(batch@ =~= b2);
                        assert(final(catalog)@ =~= m2);
                    }
                    batch
                },
            }
        },
    }
}

/// `s` with each path kept only where no earlier path has the same key.
pub open spec fn dedup(s: Seq<Seq<char>>) -> Seq<Seq<char>>
    decreases s.len(),
{
    if s.len() == 0 {
        s
    } else {
        let r = dedup(s.drop_last());
        if keys_of(r).contains(path_key(s.last())) {
            r
        } else {
            r.push(s.last())
        }
    }
}

/// The paths of `c` whose key is not the key of a path of `keep`, order kept.
pub open spec fn absent_from(c: Seq<Seq<char>>, keep: Seq<Seq<char>>) -> Seq<Seq<char>>
    decreases c.len(),
{
    if c.len() == 0 {
        c
    } else {
        let r = absent_from(c.drop_last(), keep);
        if keys_of(keep).contains(path_key(c.last())) {
            r
        } else {
            r.push(c.last())
        }
    }
}

/// `e` with the keys `ks` removed, in order.
pub open spec fn remove_keys(e: Map<Seq<char>, FileNodeView>, ks: Seq<Seq<char>>) -> Map<Seq<char>, FileNodeView>
    decreases ks.len(),
{
    if ks.len() == 0 {
        e
    } else {
        remove_keys(e, ks.drop_last()).remove(ks.last())
    }
}

/// The (path, node) pairs `items` with each path replaced by its key.
pub open spec fn keyed(items: Seq<(Seq<char>, FileNodeView)>) -> Seq<(Seq<char>, FileNodeView)> {
    items.map_values(|x: (Seq<char>, FileNodeView)| (path_key(x.0), x.1))
}

/// `e` with the pairs of `items` inserted, in order.
pub open spec fn put_all(e: Map<Seq<char>, FileNodeView>, items: Seq<(Seq<char>, FileNodeView)>) -> Map<Seq<char>, FileNodeView>
    decreases items.len(),
{
    if items.len() == 0 {
        e
    } else {
        put_all(e, items.drop_last()).insert(items.last().0, items.last().1)
    }
}

/// Whether a listed file must be refreshed: it is not cached, or its modification
/// time on disk is later than the cached one.
pub open spec fn needs_refresh(cached: Option<FileNodeView>, m: DiskMetadata) -> bool {
    match cached {
        None => true,
        Some(n) => (match m.modified {
            Some(t) => t,
            None => 0,
        }) > n.metadata.modified,
    }
}

/// The view of a directory listing: raw path texts with their metadata.
pub open spec fn listing_view(l: Seq<DiskEntry>) -> Seq<(Seq<char>, Option<DiskMetadata>)> {
    l.map_values(|e: DiskEntry| (e.path@, e.metadata))
}

/// The normal forms of the listed paths.
pub open spec fn listed_paths(l: Seq<(Seq<char>, Option<DiskMetadata>)>, platform: Platform) -> Seq<Seq<char>> {
    l.map_values(|e: (Seq<char>, Option<DiskMetadata>)| normalized(e.0, platform))
}

/// The nodes to refresh, with their (normalised) paths, in listing order: listed paths
/// with metadata that need a refresh against `entries` (looked up by key) and for which
/// a node can be made.
pub open spec fn refreshed_nodes(
    entries: Map<Seq<char>, FileNodeView>,
    l: Seq<(Seq<char>, Option<DiskMetadata>)>,
    platform: Platform,
) -> Seq<(Seq<char>, FileNodeView)>
    decreases l.len(),
{
    if l.len() == 0 {
        Seq::empty()
    } else {
        let r = refreshed_nodes(entries, l.drop_last(), platform);
        let p = normalized(l.last().0, platform);
        match l.last().1 {
            None => r,
            Some(m) => if needs_refresh(lookup(entries, path_key(p)), m) {
                match node_for_path(p, Some(m)) {
                    Some(n) => r.push((p, n)),
                    None => r,
                }
            } else {
                r
            },
        }
    }
}

/// The catalog and store writes after bringing directory `target` in step with a
/// listing of its entries (see `reconcile_directory`).
pub open spec fn reconciled(
    m: CatalogModel,
    target: Seq<char>,
    l: Seq<(Seq<char>, Option<DiskMetadata>)>,
    platform: Platform,
) -> (CatalogModel, BatchModel) {
    let current = dedup(listed_paths(l, platform));
    let updates = refreshed_nodes(m.entries, l, platform);
    let stale = match lookup(m.tree, path_key(target)) {
        Some(c) => absent_from(c, current),
        None => Seq::empty(),
    };
    if updates.len() == 0 && stale.len() == 0 {
        (m, no_writes())
    } else {
        (
            CatalogModel {
                entries: put_all(remove_keys(m.entries, keys_of(stale)), keyed(updates)),
                tree: m.tree.insert(path_key(target), current),
                names: named(m.names, target),
            },
            BatchModel { removes: stale, puts: updates, tree_puts: seq![(target, current)] },
        )
    }
}

/// Brings directory `target_dir` in step with `listing`, its entries as read from disk
/// (`None` where the directory could not be read, which changes nothing). Listed paths
/// are normalised and paths are matched by their keys (see `path_key`); listed paths not
/// cached, or modified on disk after their cached time, get a fresh node; cached
/// children of `target_dir` whose key is no longer listed are dropped. When anything was
/// refreshed or dropped, the children of `target_dir` become the listed paths (the first
/// of each key, in listing order) and the batch removes the dropped children's texts,
/// writes the fresh nodes under their paths' texts and the children under the text
/// `target_dir`.
pub fn reconcile_directory(
    catalog: &mut Catalog,
    target_dir: &str,
    listing: Option<Vec<DiskEntry>>,
    platform: Platform,
) -> (batch: StoreBatch)
    ensures
        match listing {
            None => final(catalog)@ == old(catalog)@ && batch@ == no_writes(),
            Some(l) => (final(catalog)@, batch@) == reconciled(old(catalog)@, target_dir@, listing_view(l@), platform),
        },
{
    let l = match listing {
        None => return StoreBatch::new(),
        Some(l) => l,
    };
    let ghost lv = listing_view(l@);
    let ghost ps = listed_paths(lv, platform);
    let mut current: Vec<String> = Vec::new();
    let mut seen = StringHashSet::new();
    let mut updates: Vec<(String, FileNode)> = Vec::new();
    let mut i: usize = 0;
    while i < l.len()
        invariant
            lv == listing_view(l@),
            ps == listed_paths(lv, platform),
            i <= l@.len(),
            texts(current@) == dedup(ps.take(i as int)),
            forall|x: Seq<char>| seen@.contains(x) == keys_of(texts(current@)).contains(x),
            updates@.map_values(|e: (String, FileNode)| (e.0@, e.1@)) == refreshed_nodes(
                catalog@.entries,
                lv.take(i as int),
                platform,
            ),
        decreases l@.len() - i,
    {
        let p = normalize_path(l[i].path.as_str(), platform);
        let pk = key_of(p.as_str());
        assert(ps.take(i + 1).drop_last() =~= ps.take(i as int));
        assert(lv.take(i + 1).drop_last() =~= lv.take(i as int));
        if !seen.contains(pk.as_str()) {
            let ghost old_cur = texts(current@);
            seen.insert(pk.clone());
            current.push(p.clone());
            assert(texts(current@) =~= old_cur.push(p@));
            assert(keys_of(texts(current@)) =~= keys_of(old_cur).push(pk@));
            assert forall|x: Seq<char>| seen@.contains(x) == keys_of(texts(current@)).contains(x) by {
                let kc = keys_of(texts(current@));
                let ko = keys_of(old_cur);
                if x == pk@ {
                    assert(kc[ko.len() as int] == x);
                } else if ko.contains(x) {
                    let w = choose|w: int| 0 <= w < ko.len() && ko[w] == x;
                    assert(kc[w] == x);
                } else if kc.contains(x) {
                    let w = choose|w: int| 0 <= w < kc.len() && kc[w] == x;
                    assert(ko[w] == x);
                }
            }
        }
        match l[i].metadata {
            None => {},
            Some(md) => {
                let cached = node_map_get(&catalog.entries, pk.as_str());
                let disk_mtime: u64 = match md.modified {
                    Some(t) => t,
                    None => 0,
                };
                let needs = match cached {
                    Some(n) => disk_mtime > n.metadata.modified,
                    None => true,
                };
                if needs {
                    match create_node_from_path(p.as_str(), Some(md)) {
                        Some(n) => {
                            updates.push((p.clone(), n));
                        },
                        None => {},
                    }
                }
            },
        }
        proof {
            assert(updates@.map_values(|e: (String, FileNode)| (e.0@, e.1@)) =~= refreshed_nodes(
                catalog@.entries,
                lv.take(i + 1),
                platform,
            ));
        }
        i = i + 1;
    }
    assert(ps.take(l@.len() as int) =~= ps);
    assert(lv.take(l@.len() as int) =~= lv);
    let ghost cur = texts(current@);
    let target_key = key_of(target_dir);
    let mut stale: Vec<String> = Vec::new();
    let mut stale_paths: Vec<String> = Vec::new();
    match tree_map_get(&catalog.directory_tree, target_key.as_str()) {
        None => {},
        Some(c) => {
            let mut j: usize = 0;
            while j < c.len()
                invariant
                    j <= c@.len(),
                    cur == texts(current@),
                    forall|x: Seq<char>| seen@.contains(x) == keys_of(cur).contains(x),
                    texts(stale_paths@) == absent_from(texts(c@).take(j as int), cur),
                    texts(stale@) == keys_of(texts(stale_paths@)),
                decreases c@.len() - j,
            {
                assert(texts(c@).take(j + 1).drop_last() =~= texts(c@).take(j as int));
                let ck = key_of(c[j].as_str());
                if !seen.contains(ck.as_str()) {
                    let ghost old_k = texts(stale@);
                    let ghost old_p = texts(stale_paths@);
                    stale.push(ck);
                    stale_paths.push(c[j].clone());
                    assert(texts(stale@) =~= old_k.push(path_key(c@[j as int]@)));
                    assert(texts(stale_paths@) =~= old_p.push(c@[j as int]@));
                    assert(keys_of(texts(stale_paths@)) =~= keys_of(old_p).push(path_key(c@[j as int]@)));
                }
                j = j + 1;
            }
            assert(texts(c@).take(c@.len() as int) =~= texts(c@));
        },
    }
    if updates.len() == 0 && stale.len() == 0 {
        let b = StoreBatch::new();
        return b;
    }
    let ghost e0 = catalog@.entries;
    let mut k: usize = 0;
    while k < stale.len()
        invariant
            k <= stale@.len(),
            catalog@.entries == remove_keys(e0, texts(stale@).take(k as int)),
            catalog@.tree == old(catalog)@.tree,
            catalog@.names == old(catalog)@.names,
        decreases stale@.len() - k,
    {
        node_map_remove(&mut catalog.entries, stale[k].as_str());
        assert(texts(stale@).take(k + 1).drop_last() =~= texts(stale@).take(k as int));
        k = k + 1;
    }
    assert(texts(stale@).take(stale@.len() as int) =~= texts(stale@));
    let ghost e1 = catalog@.entries;
    let ghost uv = keyed(updates@.map_values(|e: (String, FileNode)| (e.0@, e.1@)));
    let mut u: usize = 0;
    while u < updates.len()
        invariant
            u <= updates@.len(),
            uv == keyed(updates@.map_values(|e: (String, FileNode)| (e.0@, e.1@))),
            catalog@.entries == put_all(e1, uv.take(u as int)),
            catalog@.tree == old(catalog)@.tree,
            catalog@.names == old(catalog)@.names,
        decreases updates@.len() - u,
    {
        node_map_insert(&mut catalog.entries, key_of(updates[u].0.as_str()), updates[u].1.copied());
        assert(uv.take(u + 1).drop_last() =~= uv.take(u as int));
        u = u + 1;
    }
    assert(uv.take(updates@.len() as int) =~= uv);
    tree_map_insert(&mut catalog.directory_tree, target_key.clone(), clone_strings(&current));
    let target_text = owned_text(target_dir);
    keep_name(&mut catalog.dir_names, &target_key, &target_text);
    let batch = StoreBatch { entry_removes: stale_paths, entry_puts: updates, tree_puts: vec![(target_text, current)] };
    proof {
        let (m2, b2) = reconciled(old(catalog)@, target_dir@, lv, platform);
        assert(batch@ =~= b2);
        assert(final(catalog)@ =~= m2);
    }
    batch
}

/// The view of stored children: path texts with the node stored for each, if readable.
pub open spec fn stored_view(cs: Seq<CachedChild>) -> Seq<(Seq<char>, Option<FileNodeView>)> {
    cs.map_values(|c: CachedChild| (c.path@, opt_node_view(c.node)))
}

/// The stored children that come with a node, under the keys of their paths, in order.
pub open spec fn stored_nodes(cs: Seq<(Seq<char>, Option<FileNodeView>)>) -> Seq<(Seq<char>, FileNodeView)>
    decreases cs.len(),
{
    if cs.len() == 0 {
        Seq::empty()
    } else {
        let r = stored_nodes(cs.drop_last());
        match cs.last().1 {
            Some(n) => r.push((path_key(cs.last().0), n)),
            None => r,
        }
    }
}

/// The catalog after the stored children `cs` of directory `dir` are loaded.
pub open spec fn loaded(m: CatalogModel, dir: Seq<char>, cs: Seq<(Seq<char>, Option<FileNodeView>)>) -> CatalogModel {
    CatalogModel {
        entries: put_all(m.entries, stored_nodes(cs)),
        tree: m.tree.insert(path_key(dir), cs.map_values(|c: (Seq<char>, Option<FileNodeView>)| c.0)),
        names: named(m.names, dir),
    }
}

/// Loads what the store holds for directory `dir` (`None` where it holds no readable
/// children list): the children of `dir` become the stored paths, and each stored node
/// is cached under the key of its path.
pub fn load_directory_to_cache(catalog: &mut Catalog, dir: &str, stored: Option<Vec<CachedChild>>)
    ensures
        match stored {
            None => final(catalog)@ == old(catalog)@,
            Some(cs) => final(catalog)@ == loaded(old(catalog)@, dir@, stored_view(cs@)),
        },
{
    let cs = match stored {
        None => return,
        Some(cs) => cs,
    };
    let ghost sv = stored_view(cs@);
    let mut paths: Vec<String> = Vec::new();
    let mut i: usize = 0;
    while i < cs.len()
        invariant
            sv == stored_view(cs@),
            i <= cs@.len(),
            texts(paths@) == sv.take(i as int).map_values(|c: (Seq<char>, Option<FileNodeView>)| c.0),
        decreases cs@.len() - i,
    {
        let ghost old_t = texts(paths@);
        paths.push(cs[i].path.clone());
        assert(sv[i as int].0 == cs@[i as int].path@);
        assert(texts(paths@) =~= old_t.push(cs@[i as int].path@));
        assert(sv.take(i + 1).map_values(|c: (Seq<char>, Option<FileNodeView>)| c.0) =~= sv.take(i as int).map_values(
            |c: (Seq<char>, Option<FileNodeView>)| c.0,
        ).push(sv[i as int].0));
        i = i + 1;
    }
    assert(sv.take(cs@.len() as int) =~= sv);
    let dir_key = key_of(dir);
    tree_map_insert(&mut catalog.directory_tree, dir_key.clone(), paths);
    keep_name(&mut catalog.dir_names, &dir_key, &owned_text(dir));
    let ghost e0 = catalog@.entries;
    let mut j: usize = 0;
    while j < cs.len()
        invariant
            sv == stored_view(cs@),
            j <= cs@.len(),
            catalog@.entries == put_all(e0, stored_nodes(sv.take(j as int))),
            catalog@.tree == loaded(old(catalog)@, dir@, sv).tree,
            catalog@.names == loaded(old(catalog)@, dir@, sv).names,
        decreases cs@.len() - j,
    {
        assert(sv.take(j + 1).drop_last() =~= sv.take(j as int));
        assert(sv.take(j + 1).last() == sv[j as int]);
        assert(sv[j as int] == (cs@[j as int].path@, opt_node_view(cs@[j as int].node)));
        match &cs[j].node {
            Some(n) => {
                node_map_insert(&mut catalog.entries, key_of(cs[j].path.as_str()), n.copied());
                let ghost prev = stored_nodes(sv.take(j as int));
                assert(stored_nodes(sv.take(j + 1)) =~= prev.push((path_key(cs@[j as int].path@), n@)));
                assert(prev.push((path_key(cs@[j as int].path@), n@)).drop_last() =~= prev);
            },
            None => {
                assert(stored_nodes(sv.take(j + 1)) =~= stored_nodes(sv.take(j as int)));
            },
        }
        j = j + 1;
    }
    assert(sv.take(cs@.len() as int) =~= sv);
    assert(final(catalog)@ =~= loaded(old(catalog)@, dir@, sv));
}

/// The view of walked entries: depth, path text and metadata.
pub open spec fn walk_view(w: Seq<WalkedEntry>) -> Seq<(usize, Seq<char>, Option<DiskMetadata>)> {
    w.map_values(|e: WalkedEntry| (e.depth, e.path@, e.metadata))
}

/// The catalog after recording one walked entry, and the node to write for it: an
/// entry below the root with metadata and a parent gets its walk node cached under its
/// key and is appended to its parent's children; any other entry changes nothing.
pub open spec fn index_step(m: CatalogModel, e: (usize, Seq<char>, Option<DiskMetadata>)) -> (CatalogModel, Option<(Seq<char>, FileNodeView)>) {
    let (depth, path, meta) = e;
    if depth == 0 {
        (m, None)
    } else {
        match meta {
            None => (m, None),
            Some(md) => match path_parent(path) {
                None => (m, None),
                Some(par) => {
                    let node = walked_node(path, md);
                    let siblings = match lookup(m.tree, path_key(par)) {
                        Some(c) => c,
                        None => Seq::empty(),
                    };
                    (
                        CatalogModel {
                            entries: m.entries.insert(path_key(path), node),
                            tree: m.tree.insert(path_key(par), siblings.push(path)),
                            names: named(m.names, par),
                        },
                        Some((path, node)),
                    )
                },
            },
        }
    }
}

/// The catalog after recording the walked entries in order, and the nodes to write.
pub open spec fn indexed(m: CatalogModel, w: Seq<(usize, Seq<char>, Option<DiskMetadata>)>) -> (CatalogModel, Seq<(Seq<char>, FileNodeView)>)
    decreases w.len(),
{
    if w.len() == 0 {
        (m, Seq::empty())
    } else {
        let (m1, puts) = indexed(m, w.drop_last());
        let (m2, put) = index_step(m1, w.last());
        (
            m2,
            match put {
                Some(x) => puts.push(x),
                None => puts,
            },
        )
    }
}

/// The view of one walked entry.
pub open spec fn walked_view(e: WalkedEntry) -> (usize, Seq<char>, Option<DiskMetadata>) {
    (e.depth, e.path@, e.metadata)
}

/// The view of an optional (path, node) pair.
pub open spec fn opt_put_view(o: Option<(String, FileNode)>) -> Option<(Seq<char>, FileNodeView)> {
    match o {
        Some(x) => Some((x.0@, x.1@)),
        None => None,
    }
}

/// Records one entry met by the recursive index walk (see `index_step`) and hands out
/// the (path, node) pair to write for it, if any.
pub fn record_walked_entry(catalog: &mut Catalog, entry: &WalkedEntry) -> (r: Option<(String, FileNode)>)
    ensures
        (final(catalog)@, opt_put_view(r)) == index_step(old(catalog)@, walked_view(*entry)),
{
    if entry.depth == 0 {
        return None;
    }
    let md = match entry.metadata {
        None => return None,
        Some(md) => md,
    };
    let path = &entry.path;
    let par = match parent_of(path.as_str()) {
        None => return None,
        Some(par) => par,
    };
    let node = node_from_walk(path.as_str(), md);
    let pk = key_of(path.as_str());
    let park = key_of(par.as_str());
    node_map_insert(&mut catalog.entries, pk.clone(), node.copied());
    let mut siblings = match tree_map_get(&catalog.directory_tree, park.as_str()) {
        Some(c) => c,
        None => Vec::new(),
    };
    let ghost sib0 = texts(siblings@);
    assert(sib0 == match lookup(old(catalog)@.tree, path_key(par@)) {
        Some(c) => c,
        None => Seq::<Seq<char>>::empty(),
    });
    siblings.push(path.clone());
    assert(texts(siblings@) =~= sib0.push(path@));
    tree_map_insert(&mut catalog.directory_tree, park.clone(), siblings);
    keep_name(&mut catalog.dir_names, &park, &par);
    proof {
        let (m2, _) = index_step(old(catalog)@, walked_view(*entry));
        assert(catalog@ =~= m2);
    }
    Some((path.clone(), node))
}

/// Whether `rows` are the (directory text, children) pairs of the directories with keys
/// `ks`, each key once, covering every directory of `m`.
pub open spec fn rows_for_keys(rows: Seq<(Seq<char>, Seq<Seq<char>>)>, m: CatalogModel, ks: Seq<Seq<char>>) -> bool {
    &&& ks.len() == rows.len()
    &&& ks.no_duplicates()
    &&& forall|i: int| 0 <= i < ks.len() ==> m.tree.contains_key(#[trigger] ks[i]) && rows[i] == (dir_name(m, ks[i]), m.tree[ks[i]])
    &&& forall|k: Seq<char>| m.tree.contains_key(k) ==> ks.contains(k)
}

/// Whether `rows` lists every directory of `m` once, in any order, under the text it was
/// first recorded under, with its children.
pub open spec fn lists_tree(rows: Seq<(Seq<char>, Seq<Seq<char>>)>, m: CatalogModel) -> bool {
    exists|ks: Seq<Seq<char>>| rows_for_keys(rows, m, ks)
}

/// Every directory of the catalog with its children, each directory once, under the
/// text it was first recorded under, in no particular order.
pub fn tree_rows(catalog: &Catalog) -> (r: Vec<(String, Vec<String>)>)
    ensures
        lists_tree(r@.map_values(|e: (String, Vec<String>)| (e.0@, texts(e.1@))), catalog@),
{
    let snap = tree_map_snapshot(&catalog.directory_tree);
    let ghost ks = snap@.map_values(|e: (String, Vec<String>)| e.0@);
    let mut r: Vec<(String, Vec<String>)> = Vec::new();
    let mut i: usize = 0;
    while i < snap.len()
        invariant
            i <= snap@.len(),
            ks == snap@.map_values(|e: (String, Vec<String>)| e.0@),
            forall|j: int| 0 <= j < snap@.len() ==> lookup(catalog@.tree, #[trigger] snap@[j].0@) == Some(texts(snap@[j].1@)),
            r@.len() == i,
            forall|j: int| 0 <= j < i ==> (#[trigger] r@[j]).0@ == dir_name(catalog@, ks[j]) && texts(r@[j].1@) == catalog@.tree[ks[j]],
        decreases snap@.len() - i,
    {
        let name = match name_map_get(&catalog.dir_names, snap[i].0.as_str()) {
            Some(n) => n,
            None => snap[i].0.clone(),
        };
        r.push((name, clone_strings(&snap[i].1)));
        i = i + 1;
    }
    let ghost rv = r@.map_values(|e: (String, Vec<String>)| (e.0@, texts(e.1@)));
    assert(rows_for_keys(rv, catalog@, ks)) by {
        assert forall|a: int, b: int| 0 <= a < b < ks.len() implies ks[a] != ks[b] by {
            assert(ks[a] == snap@[a].0@ && ks[b] == snap@[b].0@);
        }
        assert forall|j: int| 0 <= j < ks.len() implies catalog@.tree.contains_key(#[trigger] ks[j]) && rv[j] == (
            dir_name(catalog@, ks[j]),
            catalog@.tree[ks[j]],
        ) by {
            assert(ks[j] == snap@[j].0@);
        }
        assert forall|k: Seq<char>| catalog@.tree.contains_key(k) implies ks.contains(k) by {
            let j = choose|j: int| 0 <= j < snap@.len() && #[trigger] snap@[j].0@ == k;
            assert(ks[j] == k);
        }
    }
    r
}

/// Records the entries met by a recursive walk of the file system (see `indexed`). The
/// batch writes the node of each recorded entry under its path's text, then every
/// directory of the resulting tree with its children, under the text the directory was
/// first recorded under, each directory once, in no particular order.
pub fn cache_data(catalog: &mut Catalog, walked: Vec<WalkedEntry>) -> (batch: StoreBatch)
    ensures
        final(catalog)@ == indexed(old(catalog)@, walk_view(walked@)).0,
        batch@.removes.len() == 0,
        batch@.puts == indexed(old(catalog)@, walk_view(walked@)).1,
        lists_tree(batch@.tree_puts, final(catalog)@),
{
    let ghost wv = walk_view(walked@);
    let mut puts: Vec<(String, FileNode)> = Vec::new();
    let mut i: usize = 0;
    while i < walked.len()
        invariant
            wv == walk_view(walked@),
            i <= walked@.len(),
            (catalog@, puts@.map_values(|e: (String, FileNode)| (e.0@, e.1@))) == indexed(old(catalog)@, wv.take(i as int)),
        decreases walked@.len() - i,
    {
        assert(wv.take(i + 1).drop_last() =~= wv.take(i as int));
        assert(wv.take(i + 1).last() == walked_view(walked@[i as int]));
        let ghost puts_before = puts@.map_values(|e: (String, FileNode)| (e.0@, e.1@));
        match record_walked_entry(catalog, &walked[i]) {
            Some(x) => {
                puts.push(x);
                assert(puts@.map_values(|e: (String, FileNode)| (e.0@, e.1@)) =~= indexed(old(catalog)@, wv.take(i + 1)).1);
            },
            None => {},
        }
        i = i + 1;
    }
    assert(wv.take(walked@.len() as int) =~= wv);
    let tree_puts = tree_rows(catalog);
    let batch = StoreBatch { entry_removes: Vec::new(), entry_puts: puts, tree_puts };
    batch
}

/// The node moved to `new`: `n` with its name and lowercase path taken from `new`.
pub open spec fn renamed_node(n: FileNodeView, new: Seq<char>) -> FileNodeView {
    FileNodeView { name: name_or_empty(new), lowercase_path: ascii_lower(new), ..n }
}

/// The catalog and the two store batches after moving the entry at `old` to `new`
/// (see `rename_entry`); nothing happens where `old` is not cached.
pub open spec fn renamed(m: CatalogModel, old: Seq<char>, new: Seq<char>, platform: Platform) -> (CatalogModel, Option<(BatchModel, BatchModel)>) {
    match lookup(m.entries, path_key(normalized(old, platform))) {
        None => (m, None),
        Some(n) => {
            let (m1, b1) = deleted(m, old, platform);
            let (m2, b2) = inserted(m1, new, renamed_node(n, new), platform);
            (m2, Some((b1, b2)))
        },
    }
}

/// Moves the cached entry of `old_path` to `new_path` once the file itself was renamed:
/// where the normal form of `old_path` is cached, its node gets the new file name and
/// lowercase path, `old_path` is deleted and the node inserted at `new_path`; the two
/// batches are those of the deletion and of the insertion.
pub fn rename_entry(catalog: &mut Catalog, old_path: &str, new_path: &str, platform: Platform) -> (r: Option<(StoreBatch, StoreBatch)>)
    ensures
        final(catalog)@ == renamed(old(catalog)@, old_path@, new_path@, platform).0,
        match r {
            None => renamed(old(catalog)@, old_path@, new_path@, platform).1 is None,
            Some((b1, b2)) => renamed(old(catalog)@, old_path@, new_path@, platform).1 == Some((b1@, b2@)),
        },
{
    let norm_old = normalize_path(old_path, platform);
    let mut node = match node_map_get(&catalog.entries, key_of(norm_old.as_str()).as_str()) {
        None => return None,
        Some(n) => n,
    };
    node.name = match file_name_of(new_path) {
        Some(n) => n,
        None => String::new(),
    };
    node.lowercase_path = to_ascii_lower(new_path);
    let b1 = delete_entry(catalog, old_path, platform);
    let b2 = insert_entry(catalog, new_path, node, platform);
    Some((b1, b2))
}

/// Whether the index walk skips a directory entry: a directory named `node_modules`,
/// `.git`, `target`, `dist` or `AppData`.
pub open spec fn pruned(name: Seq<char>, is_dir: bool) -> bool {
    is_dir && (name == "node_modules"@ || name == ".git"@ || name == "target"@ || name == "dist"@ || name == "AppData"@)
}

/// Whether the index walk skips the entry named `name` (see `pruned`).
pub fn is_pruned_dir(name: &str, is_dir: bool) -> (r: bool)
    ensures
        r == pruned(name@, is_dir),
{
    is_dir && (str_eq(name, "node_modules") || str_eq(name, ".git") || str_eq(name, "target") || str_eq(name, "dist")
        || str_eq(name, "AppData"))
}

} // verus!
