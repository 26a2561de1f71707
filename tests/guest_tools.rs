use std::collections::HashMap;

use lx_image_builder::actions::install_guest_tools;
use lx_image_builder::error::BuildError;
use lx_image_builder::fsops::FsOp;
use lx_image_builder::guest::{install_mdata_commands, install_tools, Distro};

fn present(markers: &[&str]) -> Vec<bool> {
    Distro::candidates()
        .iter()
        .map(|d| markers.contains(&d.marker()))
        .collect()
}

fn copies_to(ops: &[FsOp], dst: &str) -> bool {
    ops.iter().any(|o| matches!(o, FsOp::CopyAsset { dst: d, .. } if d == dst))
}

#[test]
fn markers_in_priority_order() {
    let markers: Vec<&str> = Distro::candidates().iter().map(|d| d.marker()).collect();
    assert_eq!(
        markers,
        vec![
            "etc/alpine-release",
            "etc/arch-release",
            "etc/debian_version",
            "etc/redhat-release",
            "etc/void-release"
        ]
    );
    assert_eq!(Distro::Unknown.marker(), "");
}

#[test]
fn detection_prefers_earlier_variant() {
    assert_eq!(
        Distro::detect(&present(&["etc/debian_version", "etc/redhat-release"])),
        Distro::Debian
    );
    assert_eq!(
        Distro::detect(&present(&["etc/void-release", "etc/arch-release"])),
        Distro::Arch
    );
    assert_eq!(
        Distro::detect(&present(&[
            "etc/alpine-release",
            "etc/arch-release",
            "etc/debian_version",
            "etc/redhat-release",
            "etc/void-release"
        ])),
        Distro::Alpine
    );
    assert_eq!(Distro::detect(&present(&["etc/redhat-release"])), Distro::Redhat);
    assert_eq!(Distro::detect(&present(&["etc/void-release"])), Distro::Void);
}

#[test]
fn detection_without_markers_is_unknown() {
    assert_eq!(Distro::detect(&present(&[])), Distro::Unknown);
    assert_eq!(Distro::detect(&vec![]), Distro::Unknown);
}

#[test]
fn debian_tree_gets_rc_local_and_helper_without_shutdown() {
    let ops = install_tools("/z/root", &present(&["etc/debian_version"])).unwrap();
    assert!(copies_to(&ops, "etc/rc.local"));
    assert!(copies_to(&ops, "lib/smartdc/debian"));
    assert!(!copies_to(&ops, "sbin/shutdown"));
    assert!(copies_to(&ops, "etc/profile.d/native_manpath.sh"));
    assert!(copies_to(&ops, "lib/smartdc/common.lib"));
    assert_eq!(ops.len(), 8 + 1 + 7 + 2);
}

#[test]
fn alpine_and_void_get_shutdown_override() {
    let ops = Distro::Alpine.install("/z/root").unwrap();
    assert_eq!(
        ops,
        vec![
            FsOp::CopyAsset {
                src: "guest/lib/smartdc/joyent_rc.local".to_string(),
                dst: "etc/rc.local".to_string(),
                mode: 0o755
            },
            FsOp::CopyAsset {
                src: "guest/sbin/shutdown".to_string(),
                dst: "sbin/shutdown".to_string(),
                mode: 0o755
            },
            FsOp::CopyAsset {
                src: "guest/lib/smartdc/alpine".to_string(),
                dst: "lib/smartdc/alpine".to_string(),
                mode: 0o755
            },
        ]
    );
    let ops = Distro::Void.install("/z/root").unwrap();
    assert!(copies_to(&ops, "sbin/shutdown"));
    assert!(copies_to(&ops, "lib/smartdc/void"));
}

#[test]
fn redhat_gets_rc_local_and_helper() {
    let ops = Distro::Redhat.install("/z/root").unwrap();
    assert_eq!(ops.len(), 2);
    assert!(copies_to(&ops, "etc/rc.local"));
    assert!(copies_to(&ops, "lib/smartdc/redhat"));
}

#[test]
fn arch_gets_enabled_service_unit() {
    let ops = Distro::Arch.install("/z/root").unwrap();
    assert_eq!(
        ops[0],
        FsOp::Mkdir { path: "etc/systemd/system".to_string(), mode: 0o755 }
    );
    assert!(copies_to(&ops, "etc/systemd/system/joyent.service"));
    assert_eq!(
        ops[2],
        FsOp::Symlink {
            target: "/etc/systemd/system/joyent.service".to_string(),
            link: "etc/systemd/system/multi-user.target.wants/joyent.service".to_string()
        }
    );
    assert!(copies_to(&ops, "lib/smartdc/arch"));
    assert!(!copies_to(&ops, "etc/rc.local"));
}

#[test]
fn unknown_distro_aborts_tool_installation() {
    let unsupported = Err(BuildError::UnsupportedDistro("/z/root".to_string()));
    assert_eq!(Distro::Unknown.install("/z/root"), unsupported);
    assert_eq!(install_tools("/z/root", &present(&[])), unsupported);
    assert_eq!(install_guest_tools("/z/root", &present(&[])), unsupported);
}

#[derive(Clone, Debug, PartialEq)]
enum Entry {
    File(String),
    Link(String),
}

fn apply(tree: &mut HashMap<String, Entry>, ops: &[FsOp]) {
    for op in ops {
        match op {
            FsOp::RemoveIfExists { path } => {
                tree.remove(path);
            }
            FsOp::Symlink { target, link } => {
                assert!(!tree.contains_key(link), "link {} already exists", link);
                tree.insert(link.clone(), Entry::Link(target.clone()));
            }
            other => panic!("unexpected operation {:?}", other),
        }
    }
}

#[test]
fn mdata_commands_are_idempotent() {
    let mut tree = HashMap::new();
    tree.insert("usr/sbin/mdata-get".to_string(), Entry::File("old".to_string()));
    tree.insert("usr/bin/ls".to_string(), Entry::File("ls".to_string()));
    apply(&mut tree, &install_mdata_commands());
    let once = tree.clone();
    apply(&mut tree, &install_mdata_commands());
    assert_eq!(tree, once);
    for cmd in ["mdata-get", "mdata-put", "mdata-delete", "mdata-list"] {
        assert_eq!(
            tree[&format!("usr/sbin/{}", cmd)],
            Entry::Link(format!("/native/usr/sbin/{}", cmd))
        );
    }
    assert_eq!(tree["usr/bin/ls"], Entry::File("ls".to_string()));
    assert_eq!(tree.len(), 5);
}
