//! Filesystem operations that the build performs on the staged tree.
//!
//! The library decides *which* operations run and in what order; the caller
//! executes them one by one against the real tree. Every path here is
//! relative to the staging root (but for the staging root itself, made by
//! `volume::zroot_op`), and every entry that an operation creates
//! or changes is owned by root:root.
use vstd::prelude::*;

verus! {

/// Owner and group applied to every entry that the build creates.
pub const ROOT_ID: u32 = 0;

/// One mutation of the staged tree.
#[derive(Debug, PartialEq, Eq)]
pub enum FsOp {
    /// `mkdir -p path`, then set the mode of `path`.
    Mkdir { path: String, mode: u32 },
    /// Remove whatever entry stands at `path`, if one does (a dangling
    /// symbolic link included).
    RemoveIfExists { path: String },
    /// Set the mode of an existing entry.
    SetMode { path: String, mode: u32 },
    /// Create or truncate `path` with the given contents.
    WriteFile { path: String, contents: String },
    /// Copy the asset `src` (relative to the asset directory) to `dst`, then
    /// set its mode.
    CopyAsset { src: String, dst: String, mode: u32 },
    /// Create a symbolic link at `link` that points to `target`.
    Symlink { target: String, link: String },
}

/// The mathematical value of an [`FsOp`].
pub enum OpSpec {
    Mkdir { path: Seq<char>, mode: u32 },
    RemoveIfExists { path: Seq<char> },
    SetMode { path: Seq<char>, mode: u32 },
    WriteFile { path: Seq<char>, contents: Seq<char> },
    CopyAsset { src: Seq<char>, dst: Seq<char>, mode: u32 },
    Symlink { target: Seq<char>, link: Seq<char> },
}

impl View for FsOp {
    type V = OpSpec;

    open spec fn view(&self) -> OpSpec {
        match self {
            FsOp::Mkdir { path, mode } => OpSpec::Mkdir { path: path@, mode: *mode },
            FsOp::RemoveIfExists { path } => OpSpec::RemoveIfExists { path: path@ },
            FsOp::SetMode { path, mode } => OpSpec::SetMode { path: path@, mode: *mode },
            FsOp::WriteFile { path, contents } => OpSpec::WriteFile {
                path: path@,
                contents: contents@,
            },
            FsOp::CopyAsset { src, dst, mode } => OpSpec::CopyAsset {
                src: src@,
                dst: dst@,
                mode: *mode,
            },
            FsOp::Symlink { target, link } => OpSpec::Symlink { target: target@, link: link@ },
        }
    }
}

/// The views of a list of operations, in order.
pub open spec fn ops_view(ops: Seq<FsOp>) -> Seq<OpSpec> {
    ops.map_values(|o: FsOp| o@)
}

/// An entry of the staged tree, as far as the build observes it.
pub enum Node {
    Dir { mode: u32 },
    File { contents: Seq<char>, mode: u32 },
    Link { target: Seq<char> },
}

/// The staged tree: each path that holds an entry, and the entry.
pub type Tree = Map<Seq<char>, Node>;

/// The tree after one operation, or `None` where the operation fails.
///
/// Parent directories are not modelled: a path names one entry.
pub open spec fn apply_op(t: Tree, op: OpSpec) -> Option<Tree> {
    match op {
        OpSpec::Mkdir { path, mode } => {
            if !t.contains_key(path) || t[path] is Dir {
                Some(t.insert(path, Node::Dir { mode }))
            } else {
                None
            }
        },
        OpSpec::RemoveIfExists { path } => Some(t.remove(path)),
        OpSpec::SetMode { path, mode } => {
            if !t.contains_key(path) {
                None
            } else {
                match t[path] {
                    Node::Dir { .. } => Some(t.insert(path, Node::Dir { mode })),
                    Node::File { contents, .. } => Some(t.insert(path, Node::File { contents, mode })),
                    Node::Link { .. } => Some(t),
                }
            }
        },
        OpSpec::WriteFile { path, contents } => {
            if !t.contains_key(path) {
                Some(t.insert(path, Node::File { contents, mode: 0o644 }))
            } else {
                match t[path] {
                    Node::File { mode, .. } => Some(t.insert(path, Node::File { contents, mode })),
                    _ => None,
                }
            }
        },
        OpSpec::CopyAsset { src, dst, mode } => {
            if !t.contains_key(dst) || t[dst] is File {
                Some(t.insert(dst, Node::File { contents: src, mode }))
            } else {
                None
            }
        },
        OpSpec::Symlink { target, link } => {
            if t.contains_key(link) {
                None
            } else {
                Some(t.insert(link, Node::Link { target }))
            }
        },
    }
}

/// The tree after a list of operations run in order, or `None` where one of
/// them fails (the rest do not run).
pub open spec fn apply_ops(t: Tree, ops: Seq<OpSpec>) -> Option<Tree>
    decreases ops.len(),
{
    if ops.len() == 0 {
        Some(t)
    } else {
        match apply_op(t, ops[0]) {
            Some(t1) => apply_ops(t1, ops.drop_first()),
            None => None,
        }
    }
}

pub fn mkdir_op(path: &str, mode: u32) -> (r: FsOp)
    ensures
        r@ == (OpSpec::Mkdir { path: path@, mode }),
{
    FsOp::Mkdir { path: path.to_string(), mode }
}

pub fn remove_op(path: &str) -> (r: FsOp)
    ensures
        r@ == (OpSpec::RemoveIfExists { path: path@ }),
{
    FsOp::RemoveIfExists { path: path.to_string() }
}

pub fn set_mode_op(path: &str, mode: u32) -> (r: FsOp)
    ensures
        r@ == (OpSpec::SetMode { path: path@, mode }),
{
    FsOp::SetMode { path: path.to_string(), mode }
}

pub fn write_op(path: &str, contents: &str) -> (r: FsOp)
    ensures
        r@ == (OpSpec::WriteFile { path: path@, contents: contents@ }),
{
    FsOp::WriteFile { path: path.to_string(), contents: contents.to_string() }
}

pub fn copy_op(src: &str, dst: &str, mode: u32) -> (r: FsOp)
    ensures
        r@ == (OpSpec::CopyAsset { src: src@, dst: dst@, mode }),
{
    FsOp::CopyAsset { src: src.to_string(), dst: dst.to_string(), mode }
}

pub fn symlink_op(target: &str, link: &str) -> (r: FsOp)
    ensures
        r@ == (OpSpec::Symlink { target: target@, link: link@ }),
{
    FsOp::Symlink { target: target.to_string(), link: link.to_string() }
}

} // verus!
