//! The data the explorer works on: cached file nodes, the views shown to the
//! user, and the plain records that the surrounding program reads from disk.
use vstd::prelude::*;

verus! {

/// Whether an entry is a plain file or a directory.
#[derive(Clone, Copy, Debug, PartialEq, Eq, Structural, PartialOrd)]
pub enum FileKind {
    File,
    Directory,
}

/// Metadata kept for each cached entry; times are seconds since the Unix epoch.
#[derive(Clone, Copy, Debug, PartialEq, Eq, Structural, PartialOrd)]
pub struct FileMetaData {
    pub size: u64,
    pub created: Option<u64>,
    pub modified: u64,
    pub accessed: Option<u64>,
    pub readonly: bool,
    pub hidden: bool,
}

/// One cached file or directory.
#[derive(Clone, Debug, PartialEq, PartialOrd)]
pub struct FileNode {
    pub name: String,
    pub kind: FileKind,
    pub metadata: FileMetaData,
    pub extension: Option<String>,
    pub lowercase_path: String,
}

/// The abstract content of a cached node: its texts as character sequences.
pub struct FileNodeView {
    pub name: Seq<char>,
    pub kind: FileKind,
    pub metadata: FileMetaData,
    pub extension: Option<Seq<char>>,
    pub lowercase_path: Seq<char>,
}

/// The view of an optional string.
pub open spec fn opt_view(o: Option<String>) -> Option<Seq<char>> {
    match o {
        Some(s) => Some(s@),
        None => None,
    }
}

impl View for FileNode {
    type V = FileNodeView;

    open spec fn view(&self) -> FileNodeView {
        FileNodeView {
            name: self.name@,
            kind: self.kind,
            metadata: self.metadata,
            extension: opt_view(self.extension),
            lowercase_path: self.lowercase_path@,
        }
    }
}

/// A copy of an optional string that keeps its contents.
pub fn copy_opt_string(o: &Option<String>) -> (r: Option<String>)
    ensures
        r == *o,
{
    match o {
        Some(s) => Some(s.clone()),
        None => None,
    }
}

impl FileNode {
    /// A field-by-field copy of the node.
    pub fn copied(&self) -> (r: FileNode)
        ensures
            r == *self,
    {
        FileNode {
            name: self.name.clone(),
            kind: self.kind,
            metadata: self.metadata,
            extension: copy_opt_string(&self.extension),
            lowercase_path: self.lowercase_path.clone(),
        }
    }
}

/// The column a listing is sorted by.
#[derive(Clone, Copy, Debug, PartialEq, Eq, Structural)]
pub enum SortColumn {
    Name,
    Size,
    Extension,
    ModifiedDate,
    CreatedDate,
}

impl Default for SortColumn {
    fn default() -> (r: SortColumn)
        ensures
            r == SortColumn::Name,
    {
        SortColumn::Name
    }
}

/// The direction of a sort.
#[derive(Clone, Copy, Debug, PartialEq, Eq, Structural)]
pub enum SortOrder {
    Ascending,
    Descending,
}

/// What the user asked to see: a search text, the directory shown, the sort and the
/// category filter.
#[derive(Clone, Debug)]
pub struct SearchRequest {
    pub file_query: String,
    pub current_dir: String,
    pub sortcolumn: SortColumn,
    pub sortorder: SortOrder,
    pub pil_cat: String,
}

/// One row of a listing as shown to the user.
#[derive(Clone, Debug)]
pub struct FileView {
    pub icon: String,
    pub display_name: String,
    pub lowercase_name: String,
    pub display_size: String,
    pub size_bytes: u64,
    pub display_kind: FileKind,
    pub display_modified: String,
    pub time_modified: u64,
    pub display_created: String,
    pub time_created: u64,
    pub display_ext: Option<String>,
    pub lowercase_ext: String,
    pub full_path: String,
}

/// The sidebar: labelled quick-access folders and mounted disks, as (label, path) pairs.
#[derive(Clone, Debug)]
pub struct SidebarData {
    pub quick_access: Vec<(String, String)>,
    pub system_disks: Vec<(String, String)>,
}

/// The operating system family the explorer runs on.
#[derive(Clone, Copy, Debug, PartialEq, Eq, Structural)]
pub enum Platform {
    Windows,
    MacOs,
    Linux,
    Other,
}

/// Metadata of a path as read from disk; times are seconds since the Unix epoch where
/// the system could give them. `hidden_attribute` is the file-system "hidden" attribute
/// on platforms that have one.
#[derive(Clone, Copy, Debug, PartialEq, Eq, Structural)]
pub struct DiskMetadata {
    pub is_dir: bool,
    pub len: u64,
    pub created: Option<u64>,
    pub modified: Option<u64>,
    pub accessed: Option<u64>,
    pub readonly: bool,
    pub hidden_attribute: Option<bool>,
}

/// One entry of a directory listing, with its metadata where it could be read.
#[derive(Clone, Debug)]
pub struct DiskEntry {
    pub path: String,
    pub metadata: Option<DiskMetadata>,
}

/// One entry met by a recursive walk; `depth` 0 is the walk's root.
#[derive(Clone, Debug)]
pub struct WalkedEntry {
    pub depth: usize,
    pub path: String,
    pub metadata: Option<DiskMetadata>,
}

/// One child path of a directory as stored, with its node where the store held a
/// readable one.
#[derive(Clone, Debug)]
pub struct CachedChild {
    pub path: String,
    pub node: Option<FileNode>,
}

/// A program to run, its arguments, and the directory to run it in, if any.
#[derive(Clone, Debug)]
pub struct CommandSpec {
    pub program: String,
    pub args: Vec<String>,
    pub working_dir: Option<String>,
}

/// The well-known folders of the current user.
#[derive(Clone, Debug)]
pub struct UserDirPaths {
    pub home: String,
    pub desktop: Option<String>,
    pub downloads: Option<String>,
}

/// A mounted disk: its name (possibly empty) and its mount point.
#[derive(Clone, Debug)]
pub struct DiskDescriptor {
    pub name: String,
    pub mount_point: String,
}

} // verus!
