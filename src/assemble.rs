//! Build-tree assembly: how each entry of the Python modules tree is
//! mirrored into the staging tree.

use vstd::prelude::*;
use crate::paths::{join, join_spec};

verus! {

/// The kind of a directory entry, links not followed.
#[derive(Clone, Copy, Debug, PartialEq, Eq, Structural)]
pub enum EntryKind {
    File,
    Directory,
    Symlink,
    Other,
}

/// What to do with one entry of the source tree.
#[derive(Clone, Debug, PartialEq, Eq)]
pub enum CopyAction {
    /// Copy the bytes of `from` to `to`.
    CopyFile { from: String, to: String },
    /// Mirror the directory `from` into `to`.
    Descend { from: String, to: String },
    /// Resolve the link at `link` to an absolute target and create a link to
    /// that target at `to`.
    LinkAbsolute { link: String, to: String },
    /// Produce nothing.
    Skip,
}

/// A copy action over character sequences.
pub enum CopyModel {
    CopyFile { from: Seq<char>, to: Seq<char> },
    Descend { from: Seq<char>, to: Seq<char> },
    LinkAbsolute { link: Seq<char>, to: Seq<char> },
    Skip,
}

impl View for CopyAction {
    type V = CopyModel;

    open spec fn view(&self) -> CopyModel {
        match self {
            CopyAction::CopyFile { from, to } => CopyModel::CopyFile { from: from@, to: to@ },
            CopyAction::Descend { from, to } => CopyModel::Descend { from: from@, to: to@ },
            CopyAction::LinkAbsolute { link, to } => CopyModel::LinkAbsolute { link: link@, to: to@ },
            CopyAction::Skip => CopyModel::Skip,
        }
    }
}

/// The bytecode cache directory, never copied.
pub open spec fn is_bytecode_cache(name: Seq<char>) -> bool {
    name == "__pycache__"@
}

/// How the entry `name` of kind `kind` in `src_dir` is mirrored into
/// `dst_dir`.
pub open spec fn action_spec(
    src_dir: Seq<char>,
    dst_dir: Seq<char>,
    name: Seq<char>,
    kind: EntryKind,
    follow_symlinks: bool,
) -> CopyModel {
    let from = join_spec(src_dir, name);
    let to = join_spec(dst_dir, name);
    match kind {
        EntryKind::Symlink => if follow_symlinks {
            CopyModel::LinkAbsolute { link: from, to }
        } else {
            CopyModel::Skip
        },
        EntryKind::Directory => if is_bytecode_cache(name) {
            CopyModel::Skip
        } else {
            CopyModel::Descend { from, to }
        },
        EntryKind::File => CopyModel::CopyFile { from, to },
        EntryKind::Other => CopyModel::Skip,
    }
}

/// What to do with the entry `name` of kind `kind` in `src_dir` when
/// mirroring it into `dst_dir`: files are copied, directories mirrored but
/// for bytecode caches, links recreated with an absolute target when links
/// are followed and skipped otherwise.
pub fn copy_action(
    src_dir: &str,
    dst_dir: &str,
    name: &str,
    kind: EntryKind,
    follow_symlinks: bool,
) -> (r: CopyAction)
    ensures
        r@ == action_spec(src_dir@, dst_dir@, name@, kind, follow_symlinks),
{
    match kind {
        EntryKind::Symlink => {
            if follow_symlinks {
                CopyAction::LinkAbsolute { link: join(src_dir, name), to: join(dst_dir, name) }
            } else {
                CopyAction::Skip
            }
        },
        EntryKind::Directory => {
            let cache = "__pycache__";
            if crate::text::occurs_at(name, cache, 0) && name.unicode_len() == cache.unicode_len() {
                assert(name@ =~= cache@);
                CopyAction::Skip
            } else {
                proof {
                    if name@ == cache@ {
                        assert(name@.subrange(0, cache@.len() as int) =~= cache@);
                    }
                }
                CopyAction::Descend { from: join(src_dir, name), to: join(dst_dir, name) }
            }
        },
        EntryKind::File => CopyAction::CopyFile { from: join(src_dir, name), to: join(dst_dir, name) },
        EntryKind::Other => CopyAction::Skip,
    }
}

/// Where a link found in `src_dir` with target `target` points: a relative
/// target is taken from the link's directory.
pub fn link_source(src_dir: &str, target: &str) -> (r: String)
    ensures
        r@ == join_spec(src_dir@, target@),
{
    join(src_dir, target)
}

} // verus!
