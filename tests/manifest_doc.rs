use lx_image_builder::image::{
    dataset_name, description, image_manifest, image_name, manifest_path, motd_text,
    product_text, stream_path, OsInfo, Opts,
};
use lx_image_builder::manifest::{
    check_artifact, decimal_string, sha1_digest, ContentDigest, Leaf, Manifest, Segment, UtcTime,
};
use lx_image_builder::fsops::FsOp;
use lx_image_builder::text::trim;
use lx_image_builder::volume::{
    compress_command, create_command, destroy_command, get_zfs_parent, mountpoint_command,
    send_command, snapshot_command, snapshot_name, zroot_op, zroot_path,
};

fn sample_bytes(n: usize) -> Vec<u8> {
    (0..n).map(|i| (i * 7 % 251) as u8).collect()
}

#[test]
fn digest_of_known_text() {
    assert_eq!(sha1_digest(b"Hello World!"), "2ef7bde608ce5404e97d5f042f95f89f1c232871");
    assert_eq!(sha1_digest(b""), "da39a3ee5e6b4b0d3255bfef95601890afd80709");
    assert_eq!(sha1_digest(b"abc"), "a9993e364706816aba3e25717850c26c9cd0d89d");
}

#[test]
fn digest_does_not_depend_on_chunking() {
    let data = sample_bytes(5000);
    let whole = sha1_digest(&data);
    for size in [1usize, 7, 1023, 1024, 1025, 4096, 5000] {
        let mut d = ContentDigest::new();
        for chunk in data.chunks(size) {
            d.update(chunk);
        }
        assert_eq!(d.finish(), whole);
    }
    let mut d = ContentDigest::new();
    d.update(&data);
    assert_eq!(d.finish(), whole);
}

fn sample_manifest() -> Manifest {
    Manifest {
        name: "debian-11".to_string(),
        version: "20230105".to_string(),
        description: "Container-native Debian 64-bit image.".to_string(),
        homepage: "https://docs.example.com".to_string(),
        min_platform: "20210826T002459Z".to_string(),
        uuid: "01234567-89ab-cdef-0123-456789abcdef".to_string(),
        os: "linux".to_string(),
        kernel: "5.10.0".to_string(),
        tar_file: "output/debian-11-20230105.zfs.gz".to_string(),
    }
}

#[test]
fn manifest_document_fields() {
    let m = sample_manifest();
    let d = m.document("2ef7bde608ce5404e97d5f042f95f89f1c232871", 12345, "2023-01-05T10:20:30Z");
    assert_eq!(d.v, "2");
    assert_eq!(d.name, "debian-11");
    assert_eq!(d.version, "20230105");
    assert_eq!(d.kind, "lx-dataset");
    assert_eq!(d.description, m.description);
    assert_eq!(d.homepage, "https://docs.example.com");
    assert_eq!(d.published_at, "2023-01-05T10:20:30Z");
    assert_eq!(d.os, "linux");
    assert_eq!(d.files.len(), 1);
    assert_eq!(d.files[0].sha1, "2ef7bde608ce5404e97d5f042f95f89f1c232871");
    assert_eq!(d.files[0].size, "12345");
    assert_eq!(d.files[0].compression, "gzip");
    assert_eq!(d.networks.len(), 1);
    assert_eq!(d.networks[0].name, "net0");
    assert_eq!(d.networks[0].description, "public");
    assert_eq!(d.min_platform, vec![("7.0".to_string(), "20210826T002459Z".to_string())]);
    assert_eq!(d.brand, "lx");
    assert_eq!(d.uuid, "01234567-89ab-cdef-0123-456789abcdef");
    assert!(!d.public);
    assert_eq!(d.owner, "00000000-0000-0000-0000-000000000000");
    assert_eq!(d.role, "os");
    assert_eq!(d.kernel_version, "5.10.0");
}

#[test]
fn manifest_hash_matches_recomputed_artifact_hash() {
    let data = sample_bytes(3000);
    let mut d = ContentDigest::new();
    for chunk in data.chunks(1024) {
        d.update(chunk);
    }
    let doc = sample_manifest().document(&d.finish(), data.len() as u64, "2023-01-05T10:20:30Z");
    assert!(check_artifact(&doc, &data));
    let mut tampered = data.clone();
    tampered[10] ^= 1;
    assert!(!check_artifact(&doc, &tampered));
    assert!(!check_artifact(&doc, &data[..2999]));
}

#[test]
fn sizes_in_decimal() {
    assert_eq!(decimal_string(0), "0");
    assert_eq!(decimal_string(7), "7");
    assert_eq!(decimal_string(1234567890), "1234567890");
    assert_eq!(decimal_string(u64::MAX), "18446744073709551615");
}

#[test]
fn build_date_and_publication_time() {
    let t = UtcTime { year: 2023, month: 1, day: 5, hour: 9, minute: 3, second: 7 };
    assert_eq!(t.build_date(), "20230105");
    assert_eq!(t.published_at(), "2023-01-05T09:03:07Z");
    let t = UtcTime { year: 987, month: 12, day: 31, hour: 23, minute: 59, second: 60 };
    assert_eq!(t.build_date(), "09871231");
    assert_eq!(t.published_at(), "0987-12-31T23:59:60Z");
}

#[test]
fn parent_volume_resolution() {
    assert_eq!(get_zfs_parent("tank/images", "global"), "tank/images");
    assert_eq!(get_zfs_parent("", "global"), "zones");
    assert_eq!(get_zfs_parent("", "3f2a"), "zones/3f2a/data");
}

#[test]
fn dataset_name_holds_uuid_and_date() {
    let name = dataset_name("zones", 0x0123456789abcdef0123456789abcdef, "20230105");
    assert_eq!(name, "zones/01234567-89ab-cdef-0123-456789abcdef-20230105");
    assert_eq!(
        dataset_name("p", 0, "d"),
        "p/00000000-0000-0000-0000-000000000000-d"
    );
}

#[test]
fn volume_manager_calls() {
    let c = create_command("zones/x");
    assert_eq!(c.program, "/sbin/zfs");
    assert_eq!(c.args, vec!["create", "zones/x"]);
    assert_eq!(
        mountpoint_command("zones/x").args,
        vec!["get", "-Ho", "value", "mountpoint", "zones/x"]
    );
    assert_eq!(snapshot_name("zones/x"), "zones/x@final");
    assert_eq!(snapshot_command("zones/x").args, vec!["snapshot", "zones/x@final"]);
    assert_eq!(send_command("zones/x@final").args, vec!["send", "zones/x@final"]);
    let g = compress_command();
    assert_eq!(g.program, "/usr/bin/gzip");
    assert_eq!(g.args, vec!["-9"]);
    assert_eq!(destroy_command("zones/x").args, vec!["destroy", "-r", "zones/x"]);
}

#[test]
fn staging_root_under_mount_point() {
    assert_eq!(zroot_path("/zones/x\n"), "/zones/x/root");
    assert_eq!(zroot_path("  /zones/x/  \n"), "/zones/x/root");
    assert_eq!(zroot_path("/"), "/root");
    assert_eq!(zroot_path("\n"), "root");
    assert_eq!(
        zroot_op("/zones/x\n"),
        FsOp::Mkdir { path: "/zones/x/root".to_string(), mode: 0o755 }
    );
}

fn debian() -> OsInfo {
    OsInfo {
        id: "debian".to_string(),
        version_id: "11".to_string(),
        pretty_name: "Debian GNU/Linux 11 (bullseye)".to_string(),
    }
}

#[test]
fn image_name_from_os_release() {
    assert_eq!(image_name("", &debian()), "debian-11");
    assert_eq!(image_name("custom", &debian()), "custom");
    let arch = OsInfo {
        id: "arch".to_string(),
        version_id: String::new(),
        pretty_name: "Arch Linux".to_string(),
    };
    assert_eq!(image_name("", &arch), "arch");
}

#[test]
fn guest_texts() {
    let desc = description(&debian(), "");
    assert_eq!(desc, "Container-native Debian GNU/Linux 11 (bullseye) 64-bit image. ");
    assert_eq!(trim(&desc), "Container-native Debian GNU/Linux 11 (bullseye) 64-bit image.");
    assert_eq!(trim("\u{3000} a b\t\n"), "a b");
    assert_eq!(trim("   "), "");
    let product = product_text(&debian(), "20230105", "https://docs", &desc);
    assert_eq!(
        product,
        format!(
            "Name: Triton Instance\nImage: Debian GNU/Linux 11 (bullseye) 20230105\nDocumentation: https://docs\nDescription: {}\n\n",
            desc
        )
    );
    let motd = motd_text(&debian(), "20230105", "https://docs");
    assert!(motd.starts_with("         *--+--*--*\n"));
    assert!(motd.ends_with(
        "LX Instance (Debian GNU/Linux 11 (bullseye) 20230105)\n            *--+--*--*     https://docs\n\n"
    ));
    assert_eq!(motd.lines().count(), 11);
}

#[test]
fn artifact_paths_and_manifest_inputs() {
    assert_eq!(stream_path("debian-11", "20230105"), "output/debian-11-20230105.zfs.gz");
    assert_eq!(manifest_path("debian-11", "20230105"), "output/debian-11-20230105.json");
    let opts = Opts {
        tar: "/tmp/a.gzip".to_string(),
        kernel: "5.10.0".to_string(),
        min_platform: "20210826T002459Z".to_string(),
        description: String::new(),
        url: "https://docs".to_string(),
        zfs_parent: String::new(),
        image_name: String::new(),
    };
    let m = image_manifest(&opts, "debian-11", "20230105", " desc  ", 1, "output/x.zfs.gz");
    assert_eq!(m.name, "debian-11");
    assert_eq!(m.version, "20230105");
    assert_eq!(m.description, "desc");
    assert_eq!(m.homepage, "https://docs");
    assert_eq!(m.min_platform, "20210826T002459Z");
    assert_eq!(m.uuid, "00000000-0000-0000-0000-000000000001");
    assert_eq!(m.os, "linux");
    assert_eq!(m.kernel, "5.10.0");
    assert_eq!(m.tar_file, "output/x.zfs.gz");
}

#[test]
fn manifest_entries_under_schema_keys() {
    let d = sample_manifest().document("abc", 42, "2023-01-05T10:20:30Z");
    let es = d.entries();
    assert_eq!(es.len(), 20);
    let find = |path: Vec<Segment>| es.iter().find(|e| e.path == path).map(|e| &e.value);
    let key = |s: &str| Segment::Key(s.to_string());
    assert_eq!(find(vec![key("v")]), Some(&Leaf::Str("2".to_string())));
    assert_eq!(find(vec![key("type")]), Some(&Leaf::Str("lx-dataset".to_string())));
    assert_eq!(
        find(vec![key("files"), Segment::Index(0), key("sha1")]),
        Some(&Leaf::Str("abc".to_string()))
    );
    assert_eq!(
        find(vec![key("files"), Segment::Index(0), key("size")]),
        Some(&Leaf::Str("42".to_string()))
    );
    assert_eq!(
        find(vec![key("requirements"), key("min_platform"), key("7.0")]),
        Some(&Leaf::Str("20210826T002459Z".to_string()))
    );
    assert_eq!(
        find(vec![key("requirements"), key("networks"), Segment::Index(0), key("name")]),
        Some(&Leaf::Str("net0".to_string()))
    );
    assert_eq!(find(vec![key("public")]), Some(&Leaf::Bool(false)));
    assert_eq!(
        find(vec![key("tags"), key("kernel_version")]),
        Some(&Leaf::Str("5.10.0".to_string()))
    );
}
