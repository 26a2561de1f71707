//! Guest tooling: distribution detection and the operations that install the
//! metadata agent and init integration into the staged tree.
use vstd::prelude::*;
use vstd::string::StringExecFns;
use crate::error::BuildError;
use crate::fsops::{
    copy_op, mkdir_op, ops_view, remove_op, symlink_op, FsOp, OpSpec, apply_op, apply_ops, Node, Tree,
};

verus! {

/// The guest Linux distribution family, which decides the init integration.
#[derive(Clone, Copy, Debug, PartialEq, Eq, Structural)]
pub enum Distro {
    Alpine,
    Arch,
    Debian,
    Redhat,
    Void,
    Unknown,
}

/// The known distributions, in the order in which their markers are tried.
pub open spec fn priority() -> Seq<Distro> {
    seq![Distro::Alpine, Distro::Arch, Distro::Debian, Distro::Redhat, Distro::Void]
}

/// The marker file (relative to the staging root) of each known distribution.
pub open spec fn marker_spec(d: Distro) -> Seq<char> {
    match d {
        Distro::Alpine => "etc/alpine-release"@,
        Distro::Arch => "etc/arch-release"@,
        Distro::Debian => "etc/debian_version"@,
        Distro::Redhat => "etc/redhat-release"@,
        Distro::Void => "etc/void-release"@,
        Distro::Unknown => Seq::empty(),
    }
}

/// The first distribution, from position `i` of the priority order on, whose
/// marker is present; `present[k]` tells whether the marker of
/// `priority()[k]` exists (a missing entry counts as absent).
pub open spec fn detect_from(present: Seq<bool>, i: nat) -> Distro
    decreases 5 - i,
{
    if i >= 5 {
        Distro::Unknown
    } else if i < present.len() && present[i as int] {
        priority()[i as int]
    } else {
        detect_from(present, i + 1)
    }
}

/// The distribution that detection selects.
pub open spec fn detect_spec(present: Seq<bool>) -> Distro {
    detect_from(present, 0)
}

/// The guest-facing metadata commands.
pub open spec fn mdata_names() -> Seq<Seq<char>> {
    seq!["mdata-get"@, "mdata-put"@, "mdata-delete"@, "mdata-list"@]
}

/// Replace each metadata command of the guest by a link to the host's tool.
pub open spec fn mdata_ops_spec() -> Seq<OpSpec> {
    seq![
        OpSpec::RemoveIfExists { path: "usr/sbin/mdata-get"@ },
        OpSpec::Symlink { target: "/native/usr/sbin/mdata-get"@, link: "usr/sbin/mdata-get"@ },
        OpSpec::RemoveIfExists { path: "usr/sbin/mdata-put"@ },
        OpSpec::Symlink { target: "/native/usr/sbin/mdata-put"@, link: "usr/sbin/mdata-put"@ },
        OpSpec::RemoveIfExists { path: "usr/sbin/mdata-delete"@ },
        OpSpec::Symlink {
            target: "/native/usr/sbin/mdata-delete"@,
            link: "usr/sbin/mdata-delete"@,
        },
        OpSpec::RemoveIfExists { path: "usr/sbin/mdata-list"@ },
        OpSpec::Symlink { target: "/native/usr/sbin/mdata-list"@, link: "usr/sbin/mdata-list"@ },
    ]
}

/// The profile script that adds the native manual pages to `MANPATH`.
pub open spec fn manpath_ops_spec() -> Seq<OpSpec> {
    seq![
        OpSpec::CopyAsset {
            src: "guest/etc/profile.d/native_manpath.sh"@,
            dst: "etc/profile.d/native_manpath.sh"@,
            mode: 0o744,
        },
    ]
}

/// The shared agent library under `lib/smartdc`.
pub open spec fn smartdc_ops_spec() -> Seq<OpSpec> {
    seq![
        OpSpec::Mkdir { path: "lib/smartdc"@, mode: 0o755 },
        OpSpec::CopyAsset {
            src: "guest/lib/smartdc/common.lib"@,
            dst: "lib/smartdc/common.lib"@,
            mode: 0o755,
        },
        OpSpec::CopyAsset {
            src: "guest/lib/smartdc/mdata-execute"@,
            dst: "lib/smartdc/mdata-execute"@,
            mode: 0o755,
        },
        OpSpec::CopyAsset {
            src: "guest/lib/smartdc/mdata-fetch"@,
            dst: "lib/smartdc/mdata-fetch"@,
            mode: 0o755,
        },
        OpSpec::CopyAsset {
            src: "guest/lib/smartdc/mdata-image"@,
            dst: "lib/smartdc/mdata-image"@,
            mode: 0o755,
        },
        OpSpec::CopyAsset {
            src: "guest/lib/smartdc/mount-zfs"@,
            dst: "lib/smartdc/mount-zfs"@,
            mode: 0o755,
        },
        OpSpec::CopyAsset {
            src: "guest/lib/smartdc/set-provision-state"@,
            dst: "lib/smartdc/set-provision-state"@,
            mode: 0o755,
        },
    ]
}

pub open spec fn rc_local_op() -> OpSpec {
    OpSpec::CopyAsset { src: "guest/lib/smartdc/joyent_rc.local"@, dst: "etc/rc.local"@, mode: 0o755 }
}

pub open spec fn shutdown_op() -> OpSpec {
    OpSpec::CopyAsset { src: "guest/sbin/shutdown"@, dst: "sbin/shutdown"@, mode: 0o755 }
}

/// The init integration of each known distribution; `None` for `Unknown`.
pub open spec fn distro_ops_spec(d: Distro) -> Option<Seq<OpSpec>> {
    match d {
        Distro::Alpine => Some(seq![
            rc_local_op(),
            shutdown_op(),
            OpSpec::CopyAsset {
                src: "guest/lib/smartdc/alpine"@,
                dst: "lib/smartdc/alpine"@,
                mode: 0o755,
            },
        ]),
        Distro::Arch => Some(seq![
            OpSpec::Mkdir { path: "etc/systemd/system"@, mode: 0o755 },
            OpSpec::CopyAsset {
                src: "etc/systemd/system/joyent.service"@,
                dst: "etc/systemd/system/joyent.service"@,
                mode: 0o644,
            },
            OpSpec::Symlink {
                target: "/etc/systemd/system/joyent.service"@,
                link: "etc/systemd/system/multi-user.target.wants/joyent.service"@,
            },
            OpSpec::CopyAsset {
                src: "guest/lib/smartdc/arch"@,
                dst: "lib/smartdc/arch"@,
                mode: 0o755,
            },
        ]),
        Distro::Debian => Some(seq![
            rc_local_op(),
            OpSpec::CopyAsset {
                src: "guest/lib/smartdc/debian"@,
                dst: "lib/smartdc/debian"@,
                mode: 0o755,
            },
        ]),
        Distro::Redhat => Some(seq![
            rc_local_op(),
            OpSpec::CopyAsset {
                src: "guest/lib/smartdc/redhat"@,
                dst: "lib/smartdc/redhat"@,
                mode: 0o755,
            },
        ]),
        Distro::Void => Some(seq![
            rc_local_op(),
            shutdown_op(),
            OpSpec::CopyAsset {
                src: "guest/lib/smartdc/void"@,
                dst: "lib/smartdc/void"@,
                mode: 0o755,
            },
        ]),
        Distro::Unknown => None,
    }
}

pub open spec fn is_unsupported_distro(e: BuildError, zroot: Seq<char>) -> bool {
    &&& e is UnsupportedDistro
    &&& e->UnsupportedDistro_0@ == zroot
}

/// Everything that installing the guest tools does on a tree whose markers
/// are `present`: `None` where no supported distribution is detected.
pub open spec fn tools_ops_spec(present: Seq<bool>) -> Option<Seq<OpSpec>> {
    match distro_ops_spec(detect_spec(present)) {
        Some(d) => Some(mdata_ops_spec() + manpath_ops_spec() + smartdc_ops_spec() + d),
        None => None,
    }
}

proof fn lemma_ops_view_concat(a: Seq<FsOp>, b: Seq<FsOp>)
    ensures
        ops_view(a + b) == ops_view(a) + ops_view(b),
{
    assert(ops_view(a + b) =~= ops_view(a) + ops_view(b));
}

/// Appends `more` to `ops`.
fn extend_ops(ops: &mut Vec<FsOp>, more: Vec<FsOp>)
    ensures
        ops_view(final(ops)@) == ops_view(old(ops)@) + ops_view(more@),
{
    let mut more = more;
    ops.append(&mut more);
    proof {
        lemma_ops_view_concat(old(ops)@, more@);
    }
}

impl Distro {
    /// The known distributions in priority order.
    pub fn candidates() -> (r: Vec<Distro>)
        ensures
            r@ == priority(),
    {
        let r = vec![Distro::Alpine, Distro::Arch, Distro::Debian, Distro::Redhat, Distro::Void];
        assert(r@ =~= priority());
        r
    }

    /// The marker file that identifies this distribution, relative to the
    /// staging root; empty for `Unknown`.
    pub fn marker(&self) -> (r: &'static str)
        ensures
            r@ == marker_spec(*self),
    {
        match self {
            Distro::Alpine => "etc/alpine-release",
            Distro::Arch => "etc/arch-release",
            Distro::Debian => "etc/debian_version",
            Distro::Redhat => "etc/redhat-release",
            Distro::Void => "etc/void-release",
            Distro::Unknown => {
                proof {
                    reveal_strlit("");
                }
                ""
            },
        }
    }

    /// Selects the first distribution in priority order whose marker is
    /// present: `present[k]` tells whether the marker of
    /// `Distro::candidates()[k]` exists in the staged tree.
    pub fn detect(present: &Vec<bool>) -> (r: Distro)
        ensures
            r == detect_spec(present@),
    {
        let candidates = Distro::candidates();
        let mut i: usize = 0;
        while i < 5
            invariant
                i <= 5,
                candidates@ == priority(),
                detect_from(present@, i as nat) == detect_spec(present@),
            decreases 5 - i,
        {
            if i < present.len() && present[i] {
                return candidates[i];
            }
            i = i + 1;
        }
        Distro::Unknown
    }

    /// The init integration for this distribution.
    pub fn install(&self, zroot: &str) -> (r: Result<Vec<FsOp>, BuildError>)
        ensures
            match distro_ops_spec(*self) {
                Some(ops) => r is Ok && ops_view(r->Ok_0@) == ops,
                None => r is Err && is_unsupported_distro(r->Err_0, zroot@),
            },
    {
        let ops = match self {
            Distro::Alpine => vec![
                copy_op("guest/lib/smartdc/joyent_rc.local", "etc/rc.local", 0o755),
                copy_op("guest/sbin/shutdown", "sbin/shutdown", 0o755),
                copy_op("guest/lib/smartdc/alpine", "lib/smartdc/alpine", 0o755),
            ],
            Distro::Arch => vec![
                mkdir_op("etc/systemd/system", 0o755),
                copy_op(
                    "etc/systemd/system/joyent.service",
                    "etc/systemd/system/joyent.service",
                    0o644,
                ),
                symlink_op(
                    "/etc/systemd/system/joyent.service",
                    "etc/systemd/system/multi-user.target.wants/joyent.service",
                ),
                copy_op("guest/lib/smartdc/arch", "lib/smartdc/arch", 0o755),
            ],
            Distro::Debian => vec![
                copy_op("guest/lib/smartdc/joyent_rc.local", "etc/rc.local", 0o755),
                copy_op("guest/lib/smartdc/debian", "lib/smartdc/debian", 0o755),
            ],
            Distro::Redhat => vec![
                copy_op("guest/lib/smartdc/joyent_rc.local", "etc/rc.local", 0o755),
                copy_op("guest/lib/smartdc/redhat", "lib/smartdc/redhat", 0o755),
            ],
            Distro::Void => vec![
                copy_op("guest/lib/smartdc/joyent_rc.local", "etc/rc.local", 0o755),
                copy_op("guest/sbin/shutdown", "sbin/shutdown", 0o755),
                copy_op("guest/lib/smartdc/void", "lib/smartdc/void", 0o755),
            ],
            Distro::Unknown => {
                return Err(BuildError::UnsupportedDistro(String::from_str(zroot)));
            },
        };
        assert(ops_view(ops@) =~= distro_ops_spec(*self)->Some_0);
        Ok(ops)
    }
}

/// Links each metadata command of the guest to the host's tool, removing
/// whatever stood at its place.
pub fn install_mdata_commands() -> (r: Vec<FsOp>)
    ensures
        ops_view(r@) == mdata_ops_spec(),
{
    let r = vec![
        remove_op("usr/sbin/mdata-get"),
        symlink_op("/native/usr/sbin/mdata-get", "usr/sbin/mdata-get"),
        remove_op("usr/sbin/mdata-put"),
        symlink_op("/native/usr/sbin/mdata-put", "usr/sbin/mdata-put"),
        remove_op("usr/sbin/mdata-delete"),
        symlink_op("/native/usr/sbin/mdata-delete", "usr/sbin/mdata-delete"),
        remove_op("usr/sbin/mdata-list"),
        symlink_op("/native/usr/sbin/mdata-list", "usr/sbin/mdata-list"),
    ];
    assert(ops_view(r@) =~= mdata_ops_spec());
    r
}

/// Installs the profile script for the native manual pages.
pub fn install_native_manpath() -> (r: Vec<FsOp>)
    ensures
        ops_view(r@) == manpath_ops_spec(),
{
    let r = vec![
        copy_op("guest/etc/profile.d/native_manpath.sh", "etc/profile.d/native_manpath.sh", 0o744),
    ];
    assert(ops_view(r@) =~= manpath_ops_spec());
    r
}

/// Installs the shared agent library.
pub fn install_smartdc() -> (r: Vec<FsOp>)
    ensures
        ops_view(r@) == smartdc_ops_spec(),
{
    let r = vec![
        mkdir_op("lib/smartdc", 0o755),
        copy_op("guest/lib/smartdc/common.lib", "lib/smartdc/common.lib", 0o755),
        copy_op("guest/lib/smartdc/mdata-execute", "lib/smartdc/mdata-execute", 0o755),
        copy_op("guest/lib/smartdc/mdata-fetch", "lib/smartdc/mdata-fetch", 0o755),
        copy_op("guest/lib/smartdc/mdata-image", "lib/smartdc/mdata-image", 0o755),
        copy_op("guest/lib/smartdc/mount-zfs", "lib/smartdc/mount-zfs", 0o755),
        copy_op("guest/lib/smartdc/set-provision-state", "lib/smartdc/set-provision-state", 0o755),
    ];
    assert(ops_view(r@) =~= smartdc_ops_spec());
    r
}

/// Detects the distribution from its markers and returns its integration.
pub fn install_distro(zroot: &str, present: &Vec<bool>) -> (r: Result<Vec<FsOp>, BuildError>)
    ensures
        match distro_ops_spec(detect_spec(present@)) {
            Some(ops) => r is Ok && ops_view(r->Ok_0@) == ops,
            None => r is Err && is_unsupported_distro(r->Err_0, zroot@),
        },
{
    let distro = Distro::detect(present);
    distro.install(zroot)
}

/// All the guest tooling, in order: metadata commands, manual-page profile
/// script, agent library, then the distribution's init integration.
///
/// Detection comes first: where no supported distribution is found the
/// result is `UnsupportedDistro`, naming the staging root `zroot`, and no
/// operation is planned.
pub fn install_tools(zroot: &str, present: &Vec<bool>) -> (r: Result<Vec<FsOp>, BuildError>)
    ensures
        match tools_ops_spec(present@) {
            Some(ops) => r is Ok && ops_view(r->Ok_0@) == ops,
            None => r is Err && is_unsupported_distro(r->Err_0, zroot@),
        },
{
    let distro_ops = match install_distro(zroot, present) {
        Ok(ops) => ops,
        Err(e) => {
            return Err(e);
        },
    };
    let mut ops = install_mdata_commands();
    extend_ops(&mut ops, install_native_manpath());
    extend_ops(&mut ops, install_smartdc());
    extend_ops(&mut ops, distro_ops);
    Ok(ops)
}

proof fn lemma_detect_from(present: Seq<bool>, s: nat, i: nat)
    requires
        s <= i < 5,
        i < present.len(),
        present[i as int],
    ensures
        exists|k: int|
            s <= k <= i && present[k] && #[trigger] priority()[k] == detect_from(present, s),
    decreases i - s,
{
    if present[s as int] {
        assert(priority()[s as int] == detect_from(present, s));
    } else {
        lemma_detect_from(present, s + 1, i);
        let k = choose|k: int|
            s + 1 <= k <= i && present[k] && #[trigger] priority()[k] == detect_from(present, s + 1);
        assert(priority()[k] == detect_from(present, s));
    }
}

/// Detection is deterministic and follows the priority order: where the
/// markers of two distributions are both present, the selected one is the
/// earlier of the two or one earlier still, never the later one.
pub proof fn lemma_detect_priority(present: Seq<bool>, i: int, j: int)
    requires
        0 <= i < j < 5,
        j < present.len(),
        present[i],
        present[j],
    ensures
        exists|k: int| 0 <= k <= i && present[k] && #[trigger] priority()[k] == detect_spec(present),
        detect_spec(present) != priority()[j],
{
    lemma_detect_from(present, 0, i as nat);
    let k = choose|k: int|
        0 <= k <= i && present[k] && #[trigger] priority()[k] == detect_from(present, 0);
    assert(priority()[k] != priority()[j]);
}

/// The tree after the metadata commands are installed on `t`.
pub open spec fn mdata_installed(t: Tree) -> Tree {
    t.remove("usr/sbin/mdata-get"@).insert(
        "usr/sbin/mdata-get"@,
        Node::Link { target: "/native/usr/sbin/mdata-get"@ },
    ).remove("usr/sbin/mdata-put"@).insert(
        "usr/sbin/mdata-put"@,
        Node::Link { target: "/native/usr/sbin/mdata-put"@ },
    ).remove("usr/sbin/mdata-delete"@).insert(
        "usr/sbin/mdata-delete"@,
        Node::Link { target: "/native/usr/sbin/mdata-delete"@ },
    ).remove("usr/sbin/mdata-list"@).insert(
        "usr/sbin/mdata-list"@,
        Node::Link { target: "/native/usr/sbin/mdata-list"@ },
    )
}

proof fn lemma_remove_then_link(t: Tree, p: Seq<char>, x: Seq<char>, rest: Seq<OpSpec>)
    ensures
        apply_ops(t, seq![OpSpec::RemoveIfExists { path: p }, OpSpec::Symlink { target: x, link: p }] + rest)
            == apply_ops(t.remove(p).insert(p, Node::Link { target: x }), rest),
{
    let ops = seq![OpSpec::RemoveIfExists { path: p }, OpSpec::Symlink { target: x, link: p }] + rest;
    assert(ops.drop_first() =~= seq![OpSpec::Symlink { target: x, link: p }] + rest);
    assert(ops.drop_first().drop_first() =~= rest);
    assert(apply_op(t.remove(p), OpSpec::Symlink { target: x, link: p })
        == Some(t.remove(p).insert(p, Node::Link { target: x })));
    reveal_with_fuel(apply_ops, 3);
}

proof fn lemma_mdata_apply(t: Tree)
    ensures
        apply_ops(t, mdata_ops_spec()) == Some(mdata_installed(t)),
{
    let get = seq![
        OpSpec::RemoveIfExists { path: "usr/sbin/mdata-get"@ },
        OpSpec::Symlink { target: "/native/usr/sbin/mdata-get"@, link: "usr/sbin/mdata-get"@ },
    ];
    let put = seq![
        OpSpec::RemoveIfExists { path: "usr/sbin/mdata-put"@ },
        OpSpec::Symlink { target: "/native/usr/sbin/mdata-put"@, link: "usr/sbin/mdata-put"@ },
    ];
    let del = seq![
        OpSpec::RemoveIfExists { path: "usr/sbin/mdata-delete"@ },
        OpSpec::Symlink { target: "/native/usr/sbin/mdata-delete"@, link: "usr/sbin/mdata-delete"@ },
    ];
    let list = seq![
        OpSpec::RemoveIfExists { path: "usr/sbin/mdata-list"@ },
        OpSpec::Symlink { target: "/native/usr/sbin/mdata-list"@, link: "usr/sbin/mdata-list"@ },
    ];
    let empty = Seq::<OpSpec>::empty();
    assert(mdata_ops_spec() =~= get + (put + (del + (list + empty))));
    let t1 = t.remove("usr/sbin/mdata-get"@).insert(
        "usr/sbin/mdata-get"@,
        Node::Link { target: "/native/usr/sbin/mdata-get"@ },
    );
    let t2 = t1.remove("usr/sbin/mdata-put"@).insert(
        "usr/sbin/mdata-put"@,
        Node::Link { target: "/native/usr/sbin/mdata-put"@ },
    );
    let t3 = t2.remove("usr/sbin/mdata-delete"@).insert(
        "usr/sbin/mdata-delete"@,
        Node::Link { target: "/native/usr/sbin/mdata-delete"@ },
    );
    lemma_remove_then_link(t, "usr/sbin/mdata-get"@, "/native/usr/sbin/mdata-get"@, put + (del + (list + empty)));
    lemma_remove_then_link(t1, "usr/sbin/mdata-put"@, "/native/usr/sbin/mdata-put"@, del + (list + empty));
    lemma_remove_then_link(t2, "usr/sbin/mdata-delete"@, "/native/usr/sbin/mdata-delete"@, list + empty);
    lemma_remove_then_link(t3, "usr/sbin/mdata-list"@, "/native/usr/sbin/mdata-list"@, empty);
}

/// Installing the metadata commands never fails, links each command to the
/// host's tool, and is idempotent: running it again on the tree it produced
/// gives that same tree, with the same four links and nothing else changed.
pub proof fn lemma_mdata_idempotent(t: Tree)
    ensures
        apply_ops(t, mdata_ops_spec()) is Some,
        ({
            let t1 = apply_ops(t, mdata_ops_spec())->Some_0;
            &&& apply_ops(t1, mdata_ops_spec()) == Some(t1)
            &&& t1["usr/sbin/mdata-get"@] == (Node::Link { target: "/native/usr/sbin/mdata-get"@ })
            &&& t1["usr/sbin/mdata-put"@] == (Node::Link { target: "/native/usr/sbin/mdata-put"@ })
            &&& t1["usr/sbin/mdata-delete"@] == (Node::Link { target: "/native/usr/sbin/mdata-delete"@ })
            &&& t1["usr/sbin/mdata-list"@] == (Node::Link { target: "/native/usr/sbin/mdata-list"@ })
        }),
{
    lemma_mdata_apply(t);
    let t1 = mdata_installed(t);
    lemma_mdata_apply(t1);
    assert(mdata_installed(t1) =~= t1);
    reveal_strlit("usr/sbin/mdata-get");
    reveal_strlit("usr/sbin/mdata-put");
    reveal_strlit("usr/sbin/mdata-delete");
    reveal_strlit("usr/sbin/mdata-list");
    assert("usr/sbin/mdata-get"@ != "usr/sbin/mdata-put"@) by {
        assert("usr/sbin/mdata-get"@[15] != "usr/sbin/mdata-put"@[15]);
    }
    assert("usr/sbin/mdata-get"@ != "usr/sbin/mdata-delete"@) by {
        assert("usr/sbin/mdata-get"@.len() != "usr/sbin/mdata-delete"@.len());
    }
    assert("usr/sbin/mdata-get"@ != "usr/sbin/mdata-list"@) by {
        assert("usr/sbin/mdata-get"@[15] != "usr/sbin/mdata-list"@[15]);
    }
    assert("usr/sbin/mdata-put"@ != "usr/sbin/mdata-delete"@) by {
        assert("usr/sbin/mdata-put"@.len() != "usr/sbin/mdata-delete"@.len());
    }
    assert("usr/sbin/mdata-put"@ != "usr/sbin/mdata-list"@) by {
        assert("usr/sbin/mdata-put"@[15] != "usr/sbin/mdata-list"@[15]);
    }
    assert("usr/sbin/mdata-delete"@ != "usr/sbin/mdata-list"@) by {
        assert("usr/sbin/mdata-delete"@.len() != "usr/sbin/mdata-list"@.len());
    }
}

} // verus!
