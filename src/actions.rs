//! The staging steps that customise the extracted tree.
use vstd::prelude::*;
use crate::error::BuildError;
use crate::fsops::{mkdir_op, ops_view, remove_op, set_mode_op, write_op, FsOp, OpSpec};
use crate::guest::{install_tools, is_unsupported_distro, tools_ops_spec};

verus! {

/// Normalising the root skeleton: the historically required directories
/// under `native/`, removal of a leftover container marker, a sticky
/// world-writable `native/tmp`, and the three templated files of `etc`.
pub open spec fn skeleton_ops_spec(product: Seq<char>, motd: Seq<char>, fstab: Seq<char>) -> Seq<OpSpec> {
    seq![
        OpSpec::Mkdir { path: "native/dev"@, mode: 0o755 },
        OpSpec::Mkdir { path: "native/etc/default"@, mode: 0o755 },
        OpSpec::Mkdir { path: "native/etc/svc/volatile"@, mode: 0o755 },
        OpSpec::Mkdir { path: "native/lib"@, mode: 0o755 },
        OpSpec::Mkdir { path: "native/proc"@, mode: 0o755 },
        OpSpec::Mkdir { path: "native/tmp"@, mode: 0o755 },
        OpSpec::Mkdir { path: "native/usr"@, mode: 0o755 },
        OpSpec::Mkdir { path: "native/var"@, mode: 0o755 },
        OpSpec::RemoveIfExists { path: ".dockerenv"@ },
        OpSpec::SetMode { path: "native/tmp"@, mode: 0o1777 },
        OpSpec::WriteFile { path: "etc/fstab"@, contents: fstab },
        OpSpec::WriteFile { path: "etc/product"@, contents: product },
        OpSpec::WriteFile { path: "etc/motd"@, contents: motd },
    ]
}

/// The operations that normalise the extracted tree, in order; `fstab` is
/// the static file-system table shipped with the builder.
pub fn modify_image(product: &str, motd: &str, fstab: &str) -> (r: Vec<FsOp>)
    ensures
        ops_view(r@) == skeleton_ops_spec(product@, motd@, fstab@),
{
    let r = vec![
        mkdir_op("native/dev", 0o755),
        mkdir_op("native/etc/default", 0o755),
        mkdir_op("native/etc/svc/volatile", 0o755),
        mkdir_op("native/lib", 0o755),
        mkdir_op("native/proc", 0o755),
        mkdir_op("native/tmp", 0o755),
        mkdir_op("native/usr", 0o755),
        mkdir_op("native/var", 0o755),
        remove_op(".dockerenv"),
        set_mode_op("native/tmp", 0o1777),
        write_op("etc/fstab", fstab),
        write_op("etc/product", product),
        write_op("etc/motd", motd),
    ];
    assert(ops_view(r@) =~= skeleton_ops_spec(product@, motd@, fstab@));
    r
}

/// The guest tooling for the tree at `zroot` whose distribution markers are
/// `present` (see `guest::install_tools`).
pub fn install_guest_tools(zroot: &str, present: &Vec<bool>) -> (r: Result<Vec<FsOp>, BuildError>)
    ensures
        match tools_ops_spec(present@) {
            Some(ops) => r is Ok && ops_view(r->Ok_0@) == ops,
            None => r is Err && is_unsupported_distro(r->Err_0, zroot@),
        },
{
    install_tools(zroot, present)
}

} // verus!
