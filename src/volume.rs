//! The volume manager: naming of the staging volume and the volume-manager
//! invocations that create, snapshot, serialise and destroy it.
use vstd::prelude::*;
use vstd::string::StringExecFns;
use crate::command::{tool_call, CallSpec, ToolCall};
use crate::fsops::{FsOp, OpSpec};
use crate::text::{str_eq, trim, trim_seq};

verus! {

pub open spec fn zfs_call(args: Seq<Seq<char>>) -> CallSpec {
    CallSpec { program: "/sbin/zfs"@, args }
}

/// The parent volume: the one given explicitly, or else the default of the
/// zone the build runs in (`zones` in the global zone, `zones/<zone>/data`
/// in any other).
pub open spec fn zfs_parent_spec(explicit: Seq<char>, zonename: Seq<char>) -> Seq<char> {
    if explicit.len() > 0 {
        explicit
    } else if zonename == "global"@ {
        "zones"@
    } else {
        "zones/"@ + zonename + "/data"@
    }
}

/// Resolves the parent volume under which the staging volume is created.
pub fn get_zfs_parent(explicit: &str, zonename: &str) -> (r: String)
    ensures
        r@ == zfs_parent_spec(explicit@, zonename@),
{
    if explicit.unicode_len() > 0 {
        String::from_str(explicit)
    } else if str_eq(zonename, "global") {
        String::from_str("zones")
    } else {
        String::from_str("zones/").concat(zonename).concat("/data")
    }
}

/// The staging volume's name.
pub open spec fn dataset_name_spec(parent: Seq<char>, uuid: Seq<char>, build_date: Seq<char>) -> Seq<char> {
    parent + "/"@ + uuid + "-"@ + build_date
}

/// Allocates the staging volume.
pub fn create_command(dataset: &str) -> (r: ToolCall)
    ensures
        r@ == zfs_call(seq!["create"@, dataset@]),
{
    let r = tool_call("/sbin/zfs", &vec!["create", dataset]);
    assert(r@.args =~= seq!["create"@, dataset@]);
    r
}

/// Asks for the staging volume's mount point.
pub fn mountpoint_command(dataset: &str) -> (r: ToolCall)
    ensures
        r@ == zfs_call(seq!["get"@, "-Ho"@, "value"@, "mountpoint"@, dataset@]),
{
    let r = tool_call("/sbin/zfs", &vec!["get", "-Ho", "value", "mountpoint", dataset]);
    assert(r@.args =~= seq!["get"@, "-Ho"@, "value"@, "mountpoint"@, dataset@]);
    r
}

/// The staging root: the `root` directory under the mount point that the
/// volume manager printed (surrounding white space ignored).
pub open spec fn zroot_spec(mountpoint_output: Seq<char>) -> Seq<char> {
    let mp = trim_seq(mountpoint_output);
    if mp.len() == 0 {
        "root"@
    } else if mp.last() == '/' {
        mp + "root"@
    } else {
        mp + "/root"@
    }
}

pub fn zroot_path(mountpoint_output: &str) -> (r: String)
    ensures
        r@ == zroot_spec(mountpoint_output@),
{
    let mp = trim(mountpoint_output);
    let n = mp.unicode_len();
    if n == 0 {
        String::from_str("root")
    } else if mp.get_char(n - 1) == '/' {
        String::from_str(mp).concat("root")
    } else {
        String::from_str(mp).concat("/root")
    }
}

/// Making the staging root: a directory of mode 0755, owned by root. Its
/// path is absolute, unlike those of the operations on the staged tree.
pub fn zroot_op(mountpoint_output: &str) -> (r: FsOp)
    ensures
        r@ == (OpSpec::Mkdir { path: zroot_spec(mountpoint_output@), mode: 0o755 }),
{
    FsOp::Mkdir { path: zroot_path(mountpoint_output), mode: 0o755 }
}

/// The name of the final snapshot of a volume.
pub open spec fn snapshot_name_spec(dataset: Seq<char>) -> Seq<char> {
    dataset + "@final"@
}

pub fn snapshot_name(dataset: &str) -> (r: String)
    ensures
        r@ == snapshot_name_spec(dataset@),
{
    String::from_str(dataset).concat("@final")
}

/// Takes the final snapshot of the staging volume.
pub fn snapshot_command(dataset: &str) -> (r: ToolCall)
    ensures
        r@ == zfs_call(seq!["snapshot"@, snapshot_name_spec(dataset@)]),
{
    let snap = snapshot_name(dataset);
    let r = tool_call("/sbin/zfs", &vec!["snapshot", snap.as_str()]);
    assert(r@.args =~= seq!["snapshot"@, snapshot_name_spec(dataset@)]);
    r
}

/// Serialises a snapshot to standard output.
pub fn send_command(snapshot: &str) -> (r: ToolCall)
    ensures
        r@ == zfs_call(seq!["send"@, snapshot@]),
{
    let r = tool_call("/sbin/zfs", &vec!["send", snapshot]);
    assert(r@.args =~= seq!["send"@, snapshot@]);
    r
}

/// Compresses standard input to standard output at the highest level.
pub fn compress_command() -> (r: ToolCall)
    ensures
        r@ == (CallSpec { program: "/usr/bin/gzip"@, args: seq!["-9"@] }),
{
    let r = tool_call("/usr/bin/gzip", &vec!["-9"]);
    assert(r@.args =~= seq!["-9"@]);
    r
}

/// Destroys the staging volume and everything under it.
pub fn destroy_command(dataset: &str) -> (r: ToolCall)
    ensures
        r@ == zfs_call(seq!["destroy"@, "-r"@, dataset@]),
{
    let r = tool_call("/sbin/zfs", &vec!["destroy", "-r", dataset]);
    assert(r@.args =~= seq!["destroy"@, "-r"@, dataset@]);
    r
}

} // verus!
