//! The image's identity and the texts templated into the guest.
use vstd::prelude::*;
use vstd::string::StringExecFns;
use crate::manifest::Manifest;
use crate::volume::dataset_name_spec;
use crate::text::{trim, trim_end_by, trim_end_dashes, trim_seq};

verus! {

/// The lowercase hexadecimal digit of `d` < 16.
pub open spec fn hex_lower(d: u128) -> char {
    if d < 10 {
        ((d + 48) as u8) as char
    } else {
        ((d + 87) as u8) as char
    }
}

/// The `k`-th of the 32 hexadecimal digits of `v`, most significant first.
pub open spec fn uuid_nibble(v: u128, k: int) -> u128 {
    (v >> ((124 - 4 * k) as u128)) & 0xf
}

/// The digit shown at position `i` of the hyphenated form.
pub open spec fn uuid_digit_index(i: int) -> int {
    if i < 8 {
        i
    } else if i < 13 {
        i - 1
    } else if i < 18 {
        i - 2
    } else if i < 23 {
        i - 3
    } else {
        i - 4
    }
}

/// The hyphenated lowercase form of a UUID whose 128 bits, big-endian, are
/// `v`: 8-4-4-4-12 hexadecimal digits.
pub open spec fn uuid_text_spec(v: u128) -> Seq<char> {
    Seq::new(
        36,
        |i: int|
            if i == 8 || i == 13 || i == 18 || i == 23 {
                '-'
            } else {
                hex_lower(uuid_nibble(v, uuid_digit_index(i)))
            },
    )
}

/// Relies on `uuid::Uuid::from_u128` (bytes in big-endian order) and the
/// `Display` of `uuid::fmt::Hyphenated` (lowercase, hyphenated).
#[verifier::external_body]
fn uuid_text(v: u128) -> (r: String)
    ensures
        r@ == uuid_text_spec(v),
{
    uuid::Uuid::from_u128(v).hyphenated().to_string()
}

/// The command-line surface of the builder.
pub struct Opts {
    /// The user-land archive.
    pub tar: String,
    pub kernel: String,
    pub min_platform: String,
    /// Text appended to the image's description.
    pub description: String,
    /// Documentation URL.
    pub url: String,
    /// Parent volume; empty for the default of the zone.
    pub zfs_parent: String,
    /// Image name; empty to derive it from the guest's os-release.
    pub image_name: String,
}

/// The fields of the guest's `/etc/os-release` that the build uses.
pub struct OsInfo {
    pub id: String,
    pub version_id: String,
    pub pretty_name: String,
}

/// The image name: the one given, or `<id>-<version_id>` without trailing
/// dashes.
pub open spec fn image_name_spec(explicit: Seq<char>, id: Seq<char>, version_id: Seq<char>) -> Seq<char> {
    if explicit.len() > 0 {
        explicit
    } else {
        trim_end_by(id + "-"@ + version_id, |c: char| c == '-')
    }
}

pub fn image_name(explicit: &str, os: &OsInfo) -> (r: String)
    ensures
        r@ == image_name_spec(explicit@, os.id@, os.version_id@),
{
    if explicit.unicode_len() > 0 {
        String::from_str(explicit)
    } else {
        let joined = String::from_str(os.id.as_str()).concat("-").concat(os.version_id.as_str());
        String::from_str(trim_end_dashes(joined.as_str()))
    }
}

pub open spec fn description_spec(pretty_name: Seq<char>, extra: Seq<char>) -> Seq<char> {
    "Container-native "@ + pretty_name + " 64-bit image. "@ + extra
}

/// The image's description, before trimming.
pub fn description(os: &OsInfo, extra: &str) -> (r: String)
    ensures
        r@ == description_spec(os.pretty_name@, extra@),
{
    String::from_str("Container-native ").concat(os.pretty_name.as_str()).concat(
        " 64-bit image. ",
    ).concat(extra)
}

pub open spec fn product_spec(pretty_name: Seq<char>, build_date: Seq<char>, url: Seq<char>, desc: Seq<char>) -> Seq<char> {
    "Name: Triton Instance\nImage: "@ + pretty_name + " "@ + build_date + "\nDocumentation: "@ + url
        + "\nDescription: "@ + desc + "\n\n"@
}

/// The contents of the guest's `/etc/product`.
pub fn product_text(os: &OsInfo, build_date: &str, url: &str, desc: &str) -> (r: String)
    ensures
        r@ == product_spec(os.pretty_name@, build_date@, url@, desc@),
{
    String::from_str("Name: Triton Instance\nImage: ").concat(os.pretty_name.as_str()).concat(
        " ",
    ).concat(build_date).concat("\nDocumentation: ").concat(url).concat("\nDescription: ").concat(
        desc,
    ).concat("\n\n")
}

pub open spec fn motd_head() -> Seq<char> {
    "         *--+--*--*\n         |\\ |\\ |\\ |\\\n         | \\| \\| \\| \\     #####  ####   #  #####  ###   #   # TM\n         +--*--+--*--*      #    #   #  #    #   #   #  ##  #\n         |\\ |\\ |\\ |\\ |      #    ####   #    #   #   #  # # #\n         | \\| \\| \\| \\|      #    #  #   #    #   #   #  #  ##\n         *--+--+--+--+      #    #   #  #    #    ###   #   #\n          \\ |\\ |\\ |\\ |\n           \\| \\| \\| \\|     LX Instance ("@
}

pub open spec fn motd_spec(pretty_name: Seq<char>, build_date: Seq<char>, url: Seq<char>) -> Seq<char> {
    motd_head() + pretty_name + " "@ + build_date + ")\n            *--+--*--*     "@ + url + "\n\n"@
}

/// The contents of the guest's `/etc/motd`.
pub fn motd_text(os: &OsInfo, build_date: &str, url: &str) -> (r: String)
    ensures
        r@ == motd_spec(os.pretty_name@, build_date@, url@),
{
    String::from_str(
        "         *--+--*--*\n         |\\ |\\ |\\ |\\\n         | \\| \\| \\| \\     #####  ####   #  #####  ###   #   # TM\n         +--*--+--*--*      #    #   #  #    #   #   #  ##  #\n         |\\ |\\ |\\ |\\ |      #    ####   #    #   #   #  # # #\n         | \\| \\| \\| \\|      #    #  #   #    #   #   #  #  ##\n         *--+--+--+--+      #    #   #  #    #    ###   #   #\n          \\ |\\ |\\ |\\ |\n           \\| \\| \\| \\|     LX Instance (",
    ).concat(os.pretty_name.as_str()).concat(" ").concat(build_date).concat(
        ")\n            *--+--*--*     ",
    ).concat(url).concat("\n\n")
}

pub open spec fn artifact_path_spec(name: Seq<char>, build_date: Seq<char>, ext: Seq<char>) -> Seq<char> {
    "output/"@ + name + "-"@ + build_date + ext
}

/// The staging volume's name under `parent`: unique per build, as it holds
/// the image identifier and the build date.
pub fn dataset_name(parent: &str, uuid: u128, build_date: &str) -> (r: String)
    ensures
        r@ == dataset_name_spec(parent@, uuid_text_spec(uuid), build_date@),
{
    let id = uuid_text(uuid);
    String::from_str(parent).concat("/").concat(id.as_str()).concat("-").concat(build_date)
}

/// Where the compressed filesystem stream is written.
pub fn stream_path(name: &str, build_date: &str) -> (r: String)
    ensures
        r@ == artifact_path_spec(name@, build_date@, ".zfs.gz"@),
{
    String::from_str("output/").concat(name).concat("-").concat(build_date).concat(".zfs.gz")
}

/// Where the manifest is written.
pub fn manifest_path(name: &str, build_date: &str) -> (r: String)
    ensures
        r@ == artifact_path_spec(name@, build_date@, ".json"@),
{
    String::from_str("output/").concat(name).concat("-").concat(build_date).concat(".json")
}

/// The manifest of the image named `name`, built on `build_date` with
/// identifier `uuid` (its 128 bits); its description is `desc` trimmed, and it describes
/// the stream at `tar_file`.
pub fn image_manifest(
    opts: &Opts,
    name: &str,
    build_date: &str,
    desc: &str,
    uuid: u128,
    tar_file: &str,
) -> (r: Manifest)
    ensures
        r.name@ == name@,
        r.version@ == build_date@,
        r.description@ == trim_seq(desc@),
        r.homepage@ == opts.url@,
        r.min_platform@ == opts.min_platform@,
        r.uuid@ == uuid_text_spec(uuid),
        r.os@ == "linux"@,
        r.kernel@ == opts.kernel@,
        r.tar_file@ == tar_file@,
{
    Manifest {
        name: String::from_str(name),
        version: String::from_str(build_date),
        description: String::from_str(trim(desc)),
        homepage: String::from_str(opts.url.as_str()),
        min_platform: String::from_str(opts.min_platform.as_str()),
        uuid: uuid_text(uuid),
        os: String::from_str("linux"),
        kernel: String::from_str(opts.kernel.as_str()),
        tar_file: String::from_str(tar_file),
    }
}

} // verus!
