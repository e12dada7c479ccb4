//! Building cached nodes from a path and the metadata read for it.
use vstd::prelude::*;
use crate::model::{DiskMetadata, FileKind, FileMetaData, FileNode, FileNodeView};
use crate::paths::{
    extension_of, file_name_of, hidden_status, is_hidden, name_or_empty, path_extension,
    path_file_name,
};
use crate::text::{ascii_lower, to_ascii_lower};

verus! {

/// Directory or plain file, as the metadata says.
pub open spec fn kind_of(m: DiskMetadata) -> FileKind {
    if m.is_dir {
        FileKind::Directory
    } else {
        FileKind::File
    }
}

/// The metadata kept for a node: size and times from disk (an unknown modification
/// time counts as 0), and the given hidden flag.
pub open spec fn kept_metadata(m: DiskMetadata, hidden: bool) -> FileMetaData {
    FileMetaData {
        size: m.len,
        created: m.created,
        modified: match m.modified {
            Some(t) => t,
            None => 0,
        },
        accessed: m.accessed,
        readonly: m.readonly,
        hidden,
    }
}

/// The node made for `path` from its metadata (see `create_node_from_path`): none
/// without metadata or without a file name.
pub open spec fn node_for_path(path: Seq<char>, meta: Option<DiskMetadata>) -> Option<FileNodeView> {
    match meta {
        None => None,
        Some(m) => match path_file_name(path) {
            None => None,
            Some(name) => Some(
                FileNodeView {
                    name,
                    kind: kind_of(m),
                    metadata: kept_metadata(m, is_hidden(path, m.hidden_attribute)),
                    extension: path_extension(path),
                    lowercase_path: ascii_lower(path),
                },
            ),
        },
    }
}

/// The node made for a path met by the recursive index walk: an absent file name or
/// extension counts as empty text.
pub open spec fn walked_node(path: Seq<char>, m: DiskMetadata) -> FileNodeView {
    FileNodeView {
        name: name_or_empty(path),
        kind: kind_of(m),
        metadata: kept_metadata(m, is_hidden(path, m.hidden_attribute)),
        extension: Some(
            match path_extension(path) {
                Some(e) => e,
                None => Seq::empty(),
            },
        ),
        lowercase_path: ascii_lower(path),
    }
}

fn metadata_from(m: DiskMetadata, hidden: bool) -> (r: FileMetaData)
    ensures
        r == kept_metadata(m, hidden),
{
    FileMetaData {
        size: m.len,
        created: m.created,
        modified: match m.modified {
            Some(t) => t,
            None => 0,
        },
        accessed: m.accessed,
        readonly: m.readonly,
        hidden,
    }
}

fn kind_from(m: DiskMetadata) -> (r: FileKind)
    ensures
        r == kind_of(m),
{
    if m.is_dir {
        FileKind::Directory
    } else {
        FileKind::File
    }
}

/// The node for `path`, given the metadata read for it (`None` where it could not be
/// read): its file name, kind, size and times, hidden flag, extension and ASCII
/// lowercase path. There is none without metadata or without a file name.
pub fn create_node_from_path(path: &str, meta: Option<DiskMetadata>) -> (r: Option<FileNode>)
    ensures
        opt_node_view(r) == node_for_path(path@, meta),
{
    let m = match meta {
        Some(m) => m,
        None => return None,
    };
    let name = match file_name_of(path) {
        Some(n) => n,
        None => return None,
    };
    let hidden = hidden_status(path, m.hidden_attribute);
    let node = FileNode {
        name,
        kind: kind_from(m),
        metadata: metadata_from(m, hidden),
        extension: extension_of(path),
        lowercase_path: to_ascii_lower(path),
    };
    Some(node)
}

/// The view of an optional node.
pub open spec fn opt_node_view(o: Option<FileNode>) -> Option<FileNodeView> {
    match o {
        Some(n) => Some(n@),
        None => None,
    }
}

/// The node for a path met by the recursive index walk, with its metadata.
pub fn node_from_walk(path: &str, m: DiskMetadata) -> (r: FileNode)
    ensures
        r@ == walked_node(path@, m),
{
    let name = match file_name_of(path) {
        Some(n) => n,
        None => String::new(),
    };
    let ext = match extension_of(path) {
        Some(e) => e,
        None => String::new(),
    };
    let hidden = hidden_status(path, m.hidden_attribute);
    FileNode {
        name,
        kind: kind_from(m),
        metadata: metadata_from(m, hidden),
        extension: Some(ext),
        lowercase_path: to_ascii_lower(path),
    }
}

} // verus!
