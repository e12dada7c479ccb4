use lunvix::catalog::{insert_entry, Catalog};
use lunvix::icons::get_icon;
use lunvix::model::{
    CachedChild, FileKind, FileMetaData, FileNode, FileView, Platform, SearchRequest, SortColumn, SortOrder,
};
use lunvix::search::fetch_files;
use lunvix::views::order_views;

fn node(name: &str, kind: FileKind, size: u64, modified: u64) -> FileNode {
    FileNode {
        name: name.to_string(),
        kind,
        metadata: FileMetaData { size, created: None, modified, accessed: None, readonly: false, hidden: false },
        extension: name.rsplit_once('.').map(|(_, e)| e.to_string()),
        lowercase_path: String::new(),
    }
}

fn request(query: &str, dir: &str, pil: &str) -> SearchRequest {
    SearchRequest {
        file_query: query.to_string(),
        current_dir: dir.to_string(),
        sortcolumn: SortColumn::Name,
        sortorder: SortOrder::Ascending,
        pil_cat: pil.to_string(),
    }
}

fn sample() -> Catalog {
    let mut c = Catalog::new();
    for name in ["main.rs", "notes.md", ".hidden", "photo.PNG", "clip.mp4", "src"] {
        let kind = if name == "src" { FileKind::Directory } else { FileKind::File };
        insert_entry(&mut c, &format!("/p/{}", name), node(name, kind, 10, 0), Platform::Linux);
    }
    c
}

fn paths(r: &[(String, FileNode)]) -> Vec<&str> {
    r.iter().map(|(p, _)| p.as_str()).collect()
}

#[test]
fn listing_hides_dot_files_except_under_hidden() {
    let c = sample();
    let all = fetch_files(&c, &request("", "/p", "All"), "All", None, &vec![]);
    assert_eq!(paths(&all), vec!["/p/main.rs", "/p/notes.md", "/p/photo.PNG", "/p/clip.mp4", "/p/src"]);
    let hidden = fetch_files(&c, &request("", "/p", "Hidden"), "Hidden", None, &vec![]);
    assert_eq!(paths(&hidden), vec!["/p/.hidden"]);
    let attr = vec![("/p/main.rs".to_string(), true)];
    let with_attr = fetch_files(&c, &request("", "/p", "Hidden"), "Hidden", None, &attr);
    assert_eq!(paths(&with_attr), vec!["/p/main.rs", "/p/.hidden"]);
    assert!(fetch_files(&c, &request("", "/nowhere", "All"), "All", None, &vec![]).is_empty());
    let slashed = fetch_files(&c, &request("", "/p/", "All"), "All", None, &vec![]);
    assert_eq!(paths(&slashed), paths(&all));
}

#[test]
fn category_filters_by_exact_extension() {
    let c = sample();
    let code = fetch_files(&c, &request("", "/p", "Code"), "Code", None, &vec![]);
    assert_eq!(paths(&code), vec!["/p/main.rs"]);
    let docs = fetch_files(&c, &request("", "/p", "Docs"), "Docs", None, &vec![]);
    assert_eq!(paths(&docs), vec!["/p/notes.md"]);
    let media = fetch_files(&c, &request("", "/p", "Media"), "Media", None, &vec![]);
    assert_eq!(paths(&media), vec!["/p/clip.mp4"]);
    let other = fetch_files(&c, &request("", "/p", "Whatever"), "Whatever", None, &vec![]);
    assert_eq!(other.len(), 5);
}

#[test]
fn search_matches_lowercase_query_in_stored_paths() {
    let c = Catalog::new();
    let rows = vec![
        CachedChild { path: "/a/readme.md".to_string(), node: Some(node("readme.md", FileKind::File, 1, 0)) },
        CachedChild { path: "/a/README.txt".to_string(), node: Some(node("README.txt", FileKind::File, 1, 0)) },
        CachedChild { path: "/a/.readme".to_string(), node: Some(node(".readme", FileKind::File, 1, 0)) },
        CachedChild { path: "/b/readme.rs".to_string(), node: None },
        CachedChild { path: "/c/other".to_string(), node: Some(node("other", FileKind::File, 1, 0)) },
    ];
    let r = fetch_files(&c, &request("ReadMe", "/", "All"), "All", Some(rows.clone()), &vec![]);
    assert_eq!(paths(&r), vec!["/a/readme.md"]);
    let h = fetch_files(&c, &request("readme", "/", "Hidden"), "Hidden", Some(rows), &vec![]);
    assert_eq!(paths(&h), vec!["/a/.readme"]);
    assert!(fetch_files(&c, &request("x", "/", "All"), "All", None, &vec![]).is_empty());
}

#[test]
fn search_stops_after_1001_results() {
    let c = Catalog::new();
    let rows: Vec<CachedChild> = (0..1500)
        .map(|i| CachedChild { path: format!("/f/file{:04}.txt", i), node: Some(node("x.txt", FileKind::File, 1, 0)) })
        .collect();
    let r = fetch_files(&c, &request("file", "/", "All"), "All", Some(rows), &vec![]);
    assert_eq!(r.len(), 1001);
    assert_eq!(r[1000].0, "/f/file1000.txt");
}

#[test]
fn icons_follow_kind_and_lowercase_extension() {
    assert_eq!(get_icon(FileKind::Directory, Some("rs")), "📁");
    assert_eq!(get_icon(FileKind::File, Some("rs")), "🦀");
    assert_eq!(get_icon(FileKind::File, Some("RS")), "🦀");
    assert_eq!(get_icon(FileKind::File, Some("tsx")), "📜");
    assert_eq!(get_icon(FileKind::File, Some("hpp")), "⚙️");
    assert_eq!(get_icon(FileKind::File, Some("woff2")), "🔤");
    assert_eq!(get_icon(FileKind::File, Some("lock")), "🔒");
    assert_eq!(get_icon(FileKind::File, Some("unknown")), "📄");
    assert_eq!(get_icon(FileKind::File, None), "📄");
}

#[test]
fn format_builds_rows() {
    let mut n = node("Photo.JPG", FileKind::File, 2048, 86400);
    n.metadata.created = Some(0);
    let rows = lunvix::views::format(&request("", "/", "All"), vec![("/x/Photo.JPG".to_string(), n)]);
    assert_eq!(rows.len(), 1);
    let v = &rows[0];
    assert_eq!(v.icon, "🖼️");
    assert_eq!(v.display_name, "Photo.JPG");
    assert_eq!(v.lowercase_name, "photo.jpg");
    assert_eq!(v.display_size, "2.00 KB");
    assert_eq!(v.size_bytes, 2048);
    assert_eq!(v.display_kind, FileKind::File);
    assert_eq!(v.display_modified, "1970-01-02 00:00:00 UTC");
    assert_eq!(v.time_modified, 86400);
    assert_eq!(v.time_created, 0);
    assert_eq!(v.display_created.len(), "1970-01-01 00:00".len());
    assert_eq!(v.display_ext.as_deref(), Some("JPG"));
    assert_eq!(v.lowercase_ext, "jpg");
    assert_eq!(v.full_path, "/x/Photo.JPG");
    let mut bare = node("Makefile", FileKind::File, 0, 0);
    bare.extension = None;
    let r2 = lunvix::views::format(&request("", "/", "All"), vec![("/Makefile".to_string(), bare)]);
    assert_eq!(r2[0].display_ext.as_deref(), Some(""));
    assert_eq!(r2[0].icon, "📄");
}

#[test]
fn format_writes_the_latest_dates() {
    let mut n = node("late.txt", FileKind::File, 1, 8_210_266_876_799);
    n.metadata.created = Some(253_402_207_200);
    let rows = lunvix::views::format(&request("", "/", "All"), vec![("/late.txt".to_string(), n)]);
    assert_eq!(rows[0].display_modified, "+262142-12-31 23:59:59 UTC");
    assert!(rows[0].display_created.starts_with("9999-12-3"));
    assert_eq!(rows[0].display_created.len(), "9999-12-30 22:00".len());
}

#[test]
fn format_at_writes_creation_times_at_the_offset() {
    let mut n = node("a.txt", FileKind::File, 1, 0);
    n.metadata.created = Some(86_400);
    let east = lunvix::views::format_at(&request("", "/", "All"), vec![("/a.txt".to_string(), n.clone())], Some(5400));
    assert_eq!(east[0].display_created, "1970-01-02 01:30");
    let utc = lunvix::views::format_at(&request("", "/", "All"), vec![("/a.txt".to_string(), n)], None);
    assert_eq!(utc[0].display_created, "1970-01-02 00:00");
}

fn view(name: &str, kind: FileKind, size: u64) -> FileView {
    FileView {
        icon: String::new(),
        display_name: name.to_string(),
        lowercase_name: name.to_lowercase(),
        display_size: String::new(),
        size_bytes: size,
        display_kind: kind,
        display_modified: String::new(),
        time_modified: size * 2,
        display_created: String::new(),
        time_created: 100 - size,
        display_ext: None,
        lowercase_ext: name.rsplit_once('.').map(|(_, e)| e.to_lowercase()).unwrap_or_default(),
        full_path: String::new(),
    }
}

fn names(v: &[FileView]) -> Vec<&str> {
    v.iter().map(|f| f.display_name.as_str()).collect()
}

#[test]
fn order_puts_directories_first_then_sorts() {
    let input = vec![
        view("b.txt", FileKind::File, 3),
        view("Zeta", FileKind::Directory, 1),
        view("a.rs", FileKind::File, 7),
        view("alpha", FileKind::Directory, 9),
        view("C.md", FileKind::File, 5),
    ];
    let by_name = order_views(input.clone(), SortColumn::Name, SortOrder::Ascending);
    assert_eq!(names(&by_name), vec!["alpha", "Zeta", "a.rs", "b.txt", "C.md"]);
    let by_size_desc = order_views(input.clone(), SortColumn::Size, SortOrder::Descending);
    assert_eq!(names(&by_size_desc), vec!["alpha", "Zeta", "a.rs", "C.md", "b.txt"]);
    let by_ext = order_views(input.clone(), SortColumn::Extension, SortOrder::Ascending);
    assert_eq!(&names(&by_ext)[2..], &["C.md", "a.rs", "b.txt"]);
    let by_mod = order_views(input.clone(), SortColumn::ModifiedDate, SortOrder::Ascending);
    assert_eq!(names(&by_mod), vec!["Zeta", "alpha", "b.txt", "C.md", "a.rs"]);
    let by_created = order_views(input, SortColumn::CreatedDate, SortOrder::Ascending);
    assert_eq!(names(&by_created), vec!["alpha", "Zeta", "a.rs", "C.md", "b.txt"]);
    assert!(order_views(vec![], SortColumn::Name, SortOrder::Ascending).is_empty());
}
