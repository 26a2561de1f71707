//! The archive stager: from the archive's file extension to the archiver
//! invocation that extracts it into the staging root.
use vstd::prelude::*;
use crate::command::{tool_call, CallSpec, ToolCall};
use crate::error::BuildError;
use crate::text::{ascii_lower_seq, str_eq, to_ascii_lowercase};

verus! {

/// How the archiver decompresses the archive.
#[derive(Clone, Copy, Debug, PartialEq, Eq, Structural)]
pub enum ExtractMode {
    Gzip,
    Bzip2,
    Xz,
    Plain,
}

/// The extension of the final component of a path, as `std::path::Path`
/// defines it.
pub uninterp spec fn extension_of(path: Seq<char>) -> Option<Seq<char>>;

/// Whether `p` is a plain file name (or a path ending in one) whose last
/// dot is followed by `e`: `e` is non-empty and holds no dot or slash, and
/// the dot is neither the first character nor right after a slash.
pub open spec fn plain_extension(p: Seq<char>, e: Seq<char>) -> bool {
    &&& e.len() > 0
    &&& p.len() >= e.len() + 2
    &&& p.subrange(p.len() - e.len(), p.len() as int) == e
    &&& p[p.len() - e.len() - 1] == '.'
    &&& p[p.len() - e.len() - 2] != '/'
    &&& forall|i: int| 0 <= i < e.len() ==> e[i] != '.' && e[i] != '/'
}

/// Relies on `std::path::Path::extension`: the part of the file name after
/// its last dot, `None` where the file name has no dot, or only a leading
/// one.
#[verifier::external_body]
fn path_extension(path: &str) -> (r: Option<String>)
    ensures
        match r {
            Some(e) => extension_of(path@) == Some(e@),
            None => extension_of(path@) is None,
        },
        forall|e: Seq<char>| #[trigger] plain_extension(path@, e) ==> r is Some && r->Some_0@ == e,
{
    match std::path::Path::new(path).extension() {
        Some(e) => Some(e.to_string_lossy().into_owned()),
        None => None,
    }
}

/// The extraction mode of each known (lowercase) extension.
pub open spec fn mode_of_ext(e: Seq<char>) -> Option<ExtractMode> {
    if e == "gzip"@ {
        Some(ExtractMode::Gzip)
    } else if e == "bzip2"@ {
        Some(ExtractMode::Bzip2)
    } else if e == "compressed"@ {
        Some(ExtractMode::Gzip)
    } else if e == "ustar"@ {
        Some(ExtractMode::Plain)
    } else if e == "xz"@ {
        Some(ExtractMode::Xz)
    } else if e == "tar"@ {
        Some(ExtractMode::Plain)
    } else {
        None
    }
}

/// The archiver's option word for each mode.
pub open spec fn extract_flag(m: ExtractMode) -> Seq<char> {
    match m {
        ExtractMode::Gzip => "-xzf"@,
        ExtractMode::Bzip2 => "-xjf"@,
        ExtractMode::Xz => "-xJf"@,
        ExtractMode::Plain => "-xf"@,
    }
}

/// The archiver run that extracts `archive` into `zroot` in mode `m`.
pub open spec fn tar_call_spec(archive: Seq<char>, zroot: Seq<char>, m: ExtractMode) -> CallSpec {
    CallSpec { program: "/usr/bin/gtar"@, args: seq![extract_flag(m), archive, "-C"@, zroot] }
}

pub open spec fn is_unsupported_format(r: BuildError, ext: Seq<char>) -> bool {
    &&& r is UnsupportedArchiveFormat
    &&& r->UnsupportedArchiveFormat_0@ == ext
}

/// Resolves an extension, compared without regard to ASCII case, to its
/// extraction mode; any extension outside the table is rejected with
/// `UnsupportedArchiveFormat` naming the lowercased extension.
pub fn extraction_mode(ext: &str) -> (r: Result<ExtractMode, BuildError>)
    ensures
        match mode_of_ext(ascii_lower_seq(ext@)) {
            Some(m) => r == Ok::<ExtractMode, BuildError>(m),
            None => r is Err && is_unsupported_format(r->Err_0, ascii_lower_seq(ext@)),
        },
{
    let lower = to_ascii_lowercase(ext);
    let e = lower.as_str();
    if str_eq(e, "gzip") {
        Ok(ExtractMode::Gzip)
    } else if str_eq(e, "bzip2") {
        Ok(ExtractMode::Bzip2)
    } else if str_eq(e, "compressed") {
        Ok(ExtractMode::Gzip)
    } else if str_eq(e, "ustar") {
        Ok(ExtractMode::Plain)
    } else if str_eq(e, "xz") {
        Ok(ExtractMode::Xz)
    } else if str_eq(e, "tar") {
        Ok(ExtractMode::Plain)
    } else {
        Err(BuildError::UnsupportedArchiveFormat(lower))
    }
}

/// The archiver's option word for a mode.
pub fn extract_flag_of(m: ExtractMode) -> (r: &'static str)
    ensures
        r@ == extract_flag(m),
{
    match m {
        ExtractMode::Gzip => "-xzf",
        ExtractMode::Bzip2 => "-xjf",
        ExtractMode::Xz => "-xJf",
        ExtractMode::Plain => "-xf",
    }
}

/// Whether the archive's name ends in `.tar.gz`, in any ASCII case.
pub open spec fn is_tar_gz(archive: Seq<char>) -> bool {
    let l = ascii_lower_seq(archive);
    l.len() >= 7 && l.subrange(l.len() - 7, l.len() as int) == ".tar.gz"@
}

fn ends_with_tar_gz(archive: &str) -> (r: bool)
    ensures
        r == is_tar_gz(archive@),
{
    let lower = to_ascii_lowercase(archive);
    let n = lower.as_str().unicode_len();
    if n < 7 {
        return false;
    }
    str_eq(lower.as_str().substring_char(n - 7, n), ".tar.gz")
}

/// The archiver run that extracts `archive` into the staging root `zroot`.
///
/// An archive named `*.tar.gz` (in any case) is a gzip-compressed tar.
/// Otherwise the mode comes from the archive's extension; an archive without
/// one, or with one outside the table, is rejected with
/// `UnsupportedArchiveFormat` before anything is run.
pub fn install_tar(zroot: &str, archive: &str) -> (r: Result<ToolCall, BuildError>)
    ensures
        is_tar_gz(archive@) ==> r is Ok && r->Ok_0@ == tar_call_spec(
            archive@,
            zroot@,
            ExtractMode::Gzip,
        ),
        forall|e: Seq<char>|
            #[trigger] plain_extension(archive@, e) && !is_tar_gz(archive@) ==> extension_of(
                archive@,
            ) == Some(e),
        !is_tar_gz(archive@) ==> match extension_of(archive@) {
            None => r is Err && is_unsupported_format(r->Err_0, Seq::empty()),
            Some(e) => match mode_of_ext(ascii_lower_seq(e)) {
                Some(m) => r is Ok && r->Ok_0@ == tar_call_spec(archive@, zroot@, m),
                None => r is Err && is_unsupported_format(r->Err_0, ascii_lower_seq(e)),
            },
        },
{
    if ends_with_tar_gz(archive) {
        let parts = vec![extract_flag_of(ExtractMode::Gzip), archive, "-C", zroot];
        let call = tool_call("/usr/bin/gtar", &parts);
        assert(call@.args =~= seq![extract_flag(ExtractMode::Gzip), archive@, "-C"@, zroot@]);
        return Ok(call);
    }
    let ext = match path_extension(archive) {
        Some(e) => e,
        None => {
            return Err(BuildError::UnsupportedArchiveFormat(String::new()));
        },
    };
    let mode = match extraction_mode(ext.as_str()) {
        Ok(m) => m,
        Err(e) => {
            return Err(e);
        },
    };
    let parts = vec![extract_flag_of(mode), archive, "-C", zroot];
    let call = tool_call("/usr/bin/gtar", &parts);
    assert(call@.args =~= seq![extract_flag(mode), archive@, "-C"@, zroot@]);
    Ok(call)
}

} // verus!
