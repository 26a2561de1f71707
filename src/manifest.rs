//! The manifest generator: the content digest of the compressed artifact and
//! the metadata document that describes it.
use vstd::prelude::*;
use vstd::slice::slice_subrange;
use vstd::string::StringExecFns;
use crate::text::push_char;

verus! {

#[verifier::external_type_specification]
#[verifier::external_body]
pub struct ExSha1(sha1::Sha1);

/// The bytes that a SHA-1 hasher has absorbed since it was made.
pub uninterp spec fn sha1_absorbed(h: sha1::Sha1) -> Seq<u8>;

/// The SHA-1 digest of a byte string, as 40 lowercase hexadecimal digits.
pub uninterp spec fn sha1_hex(data: Seq<u8>) -> Seq<char>;

/// The most bytes a hasher can take: it counts the message length in bits
/// in a `u64`.
pub const DIGEST_LIMIT: u64 = 0x1fff_ffff_ffff_ffff;

/// Relies on `sha1::Sha1::new`: a fresh hasher, which has absorbed nothing.
#[verifier::external_body]
fn sha1_new() -> (r: sha1::Sha1)
    ensures
        sha1_absorbed(r) == Seq::<u8>::empty(),
{
    sha1::Sha1::new()
}

/// Relies on `sha1::Sha1::update`: the hasher absorbs `data` after what it
/// already holds. Its byte count must not overflow.
#[verifier::external_body]
fn sha1_update(h: &mut sha1::Sha1, data: &[u8])
    requires
        sha1_absorbed(*old(h)).len() + data@.len() <= DIGEST_LIMIT,
    ensures
        sha1_absorbed(*final(h)) == sha1_absorbed(*old(h)) + data@,
{
    h.update(data)
}

/// Relies on `sha1::Sha1::digest` and the `Display` of `sha1::Digest`: the
/// digest of the absorbed bytes, written as five 8-digit lowercase
/// hexadecimal words.
#[verifier::external_body]
fn sha1_hexdigest(h: &sha1::Sha1) -> (r: String)
    requires
        sha1_absorbed(*h).len() <= DIGEST_LIMIT,
    ensures
        r@ == sha1_hex(sha1_absorbed(*h)),
        r@.len() == 40,
{
    h.digest().to_string()
}

/// An incremental content digest: bytes go in chunk by chunk, and the
/// result depends on the bytes alone, not on where the chunks split.
pub struct ContentDigest {
    hasher: sha1::Sha1,
}

impl ContentDigest {
    /// The bytes absorbed so far.
    pub closed spec fn absorbed(&self) -> Seq<u8> {
        sha1_absorbed(self.hasher)
    }

    pub fn new() -> (r: ContentDigest)
        ensures
            r.absorbed() == Seq::<u8>::empty(),
    {
        ContentDigest { hasher: sha1_new() }
    }

    pub fn update(&mut self, chunk: &[u8])
        requires
            old(self).absorbed().len() + chunk@.len() <= DIGEST_LIMIT,
        ensures
            final(self).absorbed() == old(self).absorbed() + chunk@,
    {
        sha1_update(&mut self.hasher, chunk)
    }

    /// The hexadecimal digest of everything absorbed.
    pub fn finish(&self) -> (r: String)
        requires
            self.absorbed().len() <= DIGEST_LIMIT,
        ensures
            r@ == sha1_hex(self.absorbed()),
            r@.len() == 40,
    {
        sha1_hexdigest(&self.hasher)
    }
}

/// Size of the chunks in which the artifact is hashed.
pub const BUFSIZE: usize = 1024;

/// The digest of `data`, fed to the hasher in chunks of `BUFSIZE` bytes; it
/// equals the digest of the bytes taken whole.
pub fn sha1_digest(data: &[u8]) -> (r: String)
    requires
        data@.len() <= DIGEST_LIMIT,
    ensures
        r@ == sha1_hex(data@),
        r@.len() == 40,
{
    let mut d = ContentDigest::new();
    let n = data.len();
    let mut i: usize = 0;
    while i < n
        invariant
            n == data@.len(),
            n <= DIGEST_LIMIT,
            i <= n,
            d.absorbed() == data@.subrange(0, i as int),
        decreases n - i,
    {
        let end = if n - i < BUFSIZE {
            n
        } else {
            i + BUFSIZE
        };
        let chunk = slice_subrange(data, i, end);
        d.update(chunk);
        assert(data@.subrange(0, end as int) =~= data@.subrange(0, i as int) + chunk@);
        i = end;
    }
    assert(data@.subrange(0, n as int) =~= data@);
    d.finish()
}

/// The decimal digit for `d` < 10.
pub open spec fn digit(d: nat) -> char {
    ((d + 48) as u8) as char
}

/// The decimal representation of `n`, without leading zeros.
pub open spec fn decimal(n: nat) -> Seq<char>
    decreases n,
{
    if n < 10 {
        seq![digit(n)]
    } else {
        decimal(n / 10).push(digit(n % 10))
    }
}

/// `n` in exactly `w` decimal digits, zero-padded (`n` < 10^w).
pub open spec fn padded(n: nat, w: nat) -> Seq<char>
    decreases w,
{
    if w == 0 {
        Seq::empty()
    } else {
        padded(n / 10, (w - 1) as nat).push(digit(n % 10))
    }
}

fn push_decimal(s: &mut String, n: u64)
    ensures
        final(s)@ == old(s)@ + decimal(n as nat),
    decreases n,
{
    if n >= 10 {
        push_decimal(s, n / 10);
    }
    push_char(s, ((n % 10) as u8 + 48) as char);
    assert(n < 10 ==> n % 10 == n);
}

fn push_padded(s: &mut String, n: u32, w: u32)
    ensures
        final(s)@ == old(s)@ + padded(n as nat, w as nat),
    decreases w,
{
    if w > 0 {
        push_padded(s, n / 10, w - 1);
        push_char(s, ((n % 10) as u8 + 48) as char);
    }
}

/// The decimal representation of a size.
pub fn decimal_string(n: u64) -> (r: String)
    ensures
        r@ == decimal(n as nat),
{
    let mut s = String::new();
    push_decimal(&mut s, n);
    s
}

/// A point in time in UTC, by calendar fields.
#[derive(Clone, Copy, Debug, PartialEq, Eq, Structural)]
pub struct UtcTime {
    pub year: u32,
    pub month: u32,
    pub day: u32,
    pub hour: u32,
    pub minute: u32,
    pub second: u32,
}

impl UtcTime {
    /// Fields within their ranges; years of four digits (a leap second may
    /// read 60).
    pub open spec fn wf(&self) -> bool {
        &&& self.year <= 9999
        &&& 1 <= self.month <= 12
        &&& 1 <= self.day <= 31
        &&& self.hour < 24
        &&& self.minute < 60
        &&& self.second <= 60
    }

    /// The build date: `YYYYMMDD`.
    pub open spec fn date_spec(&self) -> Seq<char> {
        padded(self.year as nat, 4) + padded(self.month as nat, 2) + padded(self.day as nat, 2)
    }

    /// ISO-8601 with a `Z`: `YYYY-MM-DDTHH:MM:SSZ`.
    pub open spec fn iso_spec(&self) -> Seq<char> {
        padded(self.year as nat, 4) + seq!['-'] + padded(self.month as nat, 2) + seq!['-']
            + padded(self.day as nat, 2) + seq!['T'] + padded(self.hour as nat, 2) + seq![':']
            + padded(self.minute as nat, 2) + seq![':'] + padded(self.second as nat, 2) + seq!['Z']
    }

    pub fn build_date(&self) -> (r: String)
        requires
            self.wf(),
        ensures
            r@ == self.date_spec(),
    {
        let mut s = String::new();
        push_padded(&mut s, self.year, 4);
        push_padded(&mut s, self.month, 2);
        push_padded(&mut s, self.day, 2);
        s
    }

    pub fn published_at(&self) -> (r: String)
        requires
            self.wf(),
        ensures
            r@ == self.iso_spec(),
    {
        let mut s = String::new();
        push_padded(&mut s, self.year, 4);
        push_char(&mut s, '-');
        push_padded(&mut s, self.month, 2);
        push_char(&mut s, '-');
        push_padded(&mut s, self.day, 2);
        push_char(&mut s, 'T');
        push_padded(&mut s, self.hour, 2);
        push_char(&mut s, ':');
        push_padded(&mut s, self.minute, 2);
        push_char(&mut s, ':');
        push_padded(&mut s, self.second, 2);
        push_char(&mut s, 'Z');
        s
    }
}

/// What the manifest says of an image, as the build knows it before the
/// artifact is hashed.
pub struct Manifest {
    pub name: String,
    pub version: String,
    pub description: String,
    pub homepage: String,
    pub min_platform: String,
    pub uuid: String,
    pub os: String,
    pub kernel: String,
    /// The path of the compressed artifact that the manifest describes.
    pub tar_file: String,
}

/// The file record of the artifact.
pub struct FileRecord {
    pub sha1: String,
    pub size: String,
    pub compression: String,
}

/// A network the image requires.
pub struct NetworkRequirement {
    pub name: String,
    pub description: String,
}

/// The manifest document, field by field in its fixed schema; `entries`
/// gives its JSON form under the schema's keys.
pub struct ManifestDocument {
    pub v: String,
    pub name: String,
    pub version: String,
    pub kind: String,
    pub description: String,
    pub homepage: String,
    pub published_at: String,
    pub os: String,
    pub files: Vec<FileRecord>,
    pub networks: Vec<NetworkRequirement>,
    /// The minimum platform, keyed by protocol version.
    pub min_platform: Vec<(String, String)>,
    pub brand: String,
    pub uuid: String,
    pub public: bool,
    pub owner: String,
    pub role: String,
    pub kernel_version: String,
}

/// The fixed parts of the schema and the values the build contributes.
pub open spec fn document_spec(
    d: ManifestDocument,
    m: Manifest,
    sha1: Seq<char>,
    size: u64,
    published_at: Seq<char>,
) -> bool {
    &&& d.v@ == "2"@
    &&& d.name@ == m.name@
    &&& d.version@ == m.version@
    &&& d.kind@ == "lx-dataset"@
    &&& d.description@ == m.description@
    &&& d.homepage@ == m.homepage@
    &&& d.published_at@ == published_at
    &&& d.os@ == m.os@
    &&& d.files@.len() == 1
    &&& d.files@[0].sha1@ == sha1
    &&& d.files@[0].size@ == decimal(size as nat)
    &&& d.files@[0].compression@ == "gzip"@
    &&& d.networks@.len() == 1
    &&& d.networks@[0].name@ == "net0"@
    &&& d.networks@[0].description@ == "public"@
    &&& d.min_platform@.len() == 1
    &&& d.min_platform@[0].0@ == "7.0"@
    &&& d.min_platform@[0].1@ == m.min_platform@
    &&& d.brand@ == "lx"@
    &&& d.uuid@ == m.uuid@
    &&& !d.public
    &&& d.owner@ == "00000000-0000-0000-0000-000000000000"@
    &&& d.role@ == "os"@
    &&& d.kernel_version@ == m.kernel@
}

fn copy_string(s: &String) -> (r: String)
    ensures
        r@ == s@,
{
    String::from_str(s.as_str())
}

impl Manifest {
    /// The manifest document for the artifact whose digest is `sha1` and
    /// whose size in bytes is `size`, published at `published_at`.
    pub fn document(&self, sha1: &str, size: u64, published_at: &str) -> (r: ManifestDocument)
        ensures
            document_spec(r, *self, sha1@, size, published_at@),
    {
        let file = FileRecord {
            sha1: String::from_str(sha1),
            size: decimal_string(size),
            compression: String::from_str("gzip"),
        };
        let net = NetworkRequirement {
            name: String::from_str("net0"),
            description: String::from_str("public"),
        };
        ManifestDocument {
            v: String::from_str("2"),
            name: copy_string(&self.name),
            version: copy_string(&self.version),
            kind: String::from_str("lx-dataset"),
            description: copy_string(&self.description),
            homepage: copy_string(&self.homepage),
            published_at: String::from_str(published_at),
            os: copy_string(&self.os),
            files: vec![file],
            networks: vec![net],
            min_platform: vec![(String::from_str("7.0"), copy_string(&self.min_platform))],
            brand: String::from_str("lx"),
            uuid: copy_string(&self.uuid),
            public: false,
            owner: String::from_str("00000000-0000-0000-0000-000000000000"),
            role: String::from_str("os"),
            kernel_version: copy_string(&self.kernel),
        }
    }
}

/// One step of a path into a JSON document.
#[derive(Debug, PartialEq, Eq)]
pub enum Segment {
    /// A member of an object.
    Key(String),
    /// An element of an array.
    Index(usize),
}

pub enum SegmentSpec {
    Key(Seq<char>),
    Index(usize),
}

impl View for Segment {
    type V = SegmentSpec;

    open spec fn view(&self) -> SegmentSpec {
        match self {
            Segment::Key(k) => SegmentSpec::Key(k@),
            Segment::Index(i) => SegmentSpec::Index(*i),
        }
    }
}

/// A scalar value of a JSON document.
#[derive(Debug, PartialEq, Eq)]
pub enum Leaf {
    Str(String),
    Bool(bool),
}

pub enum LeafSpec {
    Str(Seq<char>),
    Bool(bool),
}

impl View for Leaf {
    type V = LeafSpec;

    open spec fn view(&self) -> LeafSpec {
        match self {
            Leaf::Str(v) => LeafSpec::Str(v@),
            Leaf::Bool(b) => LeafSpec::Bool(*b),
        }
    }
}

/// A scalar of a JSON document and the path that leads to it. A document is
/// the list of its entries, in order: objects and arrays are made along the
/// paths.
#[derive(Debug, PartialEq, Eq)]
pub struct JsonEntry {
    pub path: Vec<Segment>,
    pub value: Leaf,
}

pub open spec fn entry_view(e: JsonEntry) -> (Seq<SegmentSpec>, LeafSpec) {
    (e.path@.map_values(|s: Segment| s@), e.value@)
}

pub open spec fn entries_view(es: Seq<JsonEntry>) -> Seq<(Seq<SegmentSpec>, LeafSpec)> {
    es.map_values(|e: JsonEntry| entry_view(e))
}

pub open spec fn k(key: Seq<char>) -> SegmentSpec {
    SegmentSpec::Key(key)
}

pub open spec fn str_at(path: Seq<SegmentSpec>, v: Seq<char>) -> (Seq<SegmentSpec>, LeafSpec) {
    (path, LeafSpec::Str(v))
}

/// The manifest document under the keys of its schema.
pub open spec fn entries_spec(d: ManifestDocument) -> Seq<(Seq<SegmentSpec>, LeafSpec)> {
    seq![
        str_at(seq![k("v"@)], d.v@),
        str_at(seq![k("name"@)], d.name@),
        str_at(seq![k("version"@)], d.version@),
        str_at(seq![k("type"@)], d.kind@),
        str_at(seq![k("description"@)], d.description@),
        str_at(seq![k("homepage"@)], d.homepage@),
        str_at(seq![k("published_at"@)], d.published_at@),
        str_at(seq![k("os"@)], d.os@),
        str_at(seq![k("files"@), SegmentSpec::Index(0), k("sha1"@)], d.files@[0].sha1@),
        str_at(seq![k("files"@), SegmentSpec::Index(0), k("size"@)], d.files@[0].size@),
        str_at(
            seq![k("files"@), SegmentSpec::Index(0), k("compression"@)],
            d.files@[0].compression@,
        ),
        str_at(
            seq![k("requirements"@), k("networks"@), SegmentSpec::Index(0), k("name"@)],
            d.networks@[0].name@,
        ),
        str_at(
            seq![k("requirements"@), k("networks"@), SegmentSpec::Index(0), k("description"@)],
            d.networks@[0].description@,
        ),
        str_at(
            seq![k("requirements"@), k("min_platform"@), k(d.min_platform@[0].0@)],
            d.min_platform@[0].1@,
        ),
        str_at(seq![k("requirements"@), k("brand"@)], d.brand@),
        str_at(seq![k("uuid"@)], d.uuid@),
        (seq![k("public"@)], LeafSpec::Bool(d.public)),
        str_at(seq![k("owner"@)], d.owner@),
        str_at(seq![k("tags"@), k("role"@)], d.role@),
        str_at(seq![k("tags"@), k("kernel_version"@)], d.kernel_version@),
    ]
}

fn key(s: &str) -> (r: Segment)
    ensures
        r@ == SegmentSpec::Key(s@),
{
    Segment::Key(String::from_str(s))
}

fn str_entry(path: Vec<Segment>, v: &String) -> (r: JsonEntry)
    ensures
        entry_view(r) == str_at(path@.map_values(|s: Segment| s@), v@),
{
    JsonEntry { path, value: Leaf::Str(copy_string(v)) }
}

impl ManifestDocument {
    /// One file record, one network and one minimum platform, as
    /// `Manifest::document` makes them.
    pub open spec fn wf(&self) -> bool {
        &&& self.files@.len() == 1
        &&& self.networks@.len() == 1
        &&& self.min_platform@.len() == 1
    }

    /// The document as the entries of its JSON form.
    pub fn entries(&self) -> (r: Vec<JsonEntry>)
        requires
            self.wf(),
        ensures
            entries_view(r@) == entries_spec(*self),
    {
        let f = &self.files[0];
        let n = &self.networks[0];
        let p = &self.min_platform[0];
        let r = vec![
            str_entry(vec![key("v")], &self.v),
            str_entry(vec![key("name")], &self.name),
            str_entry(vec![key("version")], &self.version),
            str_entry(vec![key("type")], &self.kind),
            str_entry(vec![key("description")], &self.description),
            str_entry(vec![key("homepage")], &self.homepage),
            str_entry(vec![key("published_at")], &self.published_at),
            str_entry(vec![key("os")], &self.os),
            str_entry(vec![key("files"), Segment::Index(0), key("sha1")], &f.sha1),
            str_entry(vec![key("files"), Segment::Index(0), key("size")], &f.size),
            str_entry(vec![key("files"), Segment::Index(0), key("compression")], &f.compression),
            str_entry(
                vec![key("requirements"), key("networks"), Segment::Index(0), key("name")],
                &n.name,
            ),
            str_entry(
                vec![key("requirements"), key("networks"), Segment::Index(0), key("description")],
                &n.description,
            ),
            str_entry(
                vec![key("requirements"), key("min_platform"), key(p.0.as_str())],
                &p.1,
            ),
            str_entry(vec![key("requirements"), key("brand")], &self.brand),
            str_entry(vec![key("uuid")], &self.uuid),
            JsonEntry { path: vec![key("public")], value: Leaf::Bool(self.public) },
            str_entry(vec![key("owner")], &self.owner),
            str_entry(vec![key("tags"), key("role")], &self.role),
            str_entry(vec![key("tags"), key("kernel_version")], &self.kernel_version),
        ];
        assert(entries_view(r@) =~= entries_spec(*self)) by {
            assert forall|i: int| 0 <= i < r@.len() implies entry_view(r@[i]) == entries_spec(
                *self,
            )[i] by {
                assert(entry_view(r@[i]).0 =~= entries_spec(*self)[i].0);
            }
        }
        r
    }
}

/// Recomputes the digest and size of `data` and compares them with the file
/// record of a manifest document.
pub fn check_artifact(doc: &ManifestDocument, data: &[u8]) -> (r: bool)
    requires
        data@.len() <= DIGEST_LIMIT,
    ensures
        r == (doc.files@.len() > 0 && doc.files@[0].sha1@ == sha1_hex(data@)
            && doc.files@[0].size@ == decimal(data@.len())),
{
    if doc.files.len() == 0 {
        return false;
    }
    let digest = sha1_digest(data);
    let size = decimal_string(data.len() as u64);
    crate::text::str_eq(doc.files[0].sha1.as_str(), digest.as_str())
        && crate::text::str_eq(doc.files[0].size.as_str(), size.as_str())
}

/// The manifest's content hash and size are those of the bytes of the
/// artifact: a document made from the chunked digest of `data` and its
/// length passes the independent recomputation of `check_artifact`, and its
/// JSON form holds that hash and size under `files[0]`.
pub proof fn lemma_manifest_matches_artifact(
    m: Manifest,
    data: Seq<u8>,
    digest: Seq<char>,
    published_at: Seq<char>,
    d: ManifestDocument,
)
    requires
        data.len() <= DIGEST_LIMIT,
        digest == sha1_hex(data),
        document_spec(d, m, digest, data.len() as u64, published_at),
    ensures
        d.wf(),
        d.files@.len() > 0,
        d.files@[0].sha1@ == sha1_hex(data),
        d.files@[0].size@ == decimal(data.len()),
        entries_spec(d)[8] == str_at(
            seq![k("files"@), SegmentSpec::Index(0), k("sha1"@)],
            sha1_hex(data),
        ),
        entries_spec(d)[9] == str_at(
            seq![k("files"@), SegmentSpec::Index(0), k("size"@)],
            decimal(data.len()),
        ),
{
}

} // verus!
