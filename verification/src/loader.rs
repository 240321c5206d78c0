//! Skill component loading: the on-disk cache key of a skill and the
//! SHA-256 pin check of its bytes.

use vstd::prelude::*;
use sha2::{Digest, Sha256};
use crate::text::{push_str, string_from_chars};
use crate::tool_runner::{SkillManifest, SkillSource};

verus! {

/// SHA-256 digest of `data`, as computed by the `sha2` crate.
pub uninterp spec fn sha256_of(data: Seq<u8>) -> Seq<u8>;

/// Trusted: `sha2::Sha256::digest` hashes `data` in one go; its output is
/// the 32-byte SHA-256 digest, a function of the input alone. Nothing more
/// of the digest is stated.
#[verifier::external_body]
fn sha256(data: &[u8]) -> (d: Vec<u8>)
    ensures
        d@ == sha256_of(data@),
        d@.len() == 32,
{
    Sha256::digest(data).to_vec()
}

/// Lowercase hex digit for `n < 16`.
pub open spec fn hex_digit(n: u8) -> char {
    if n < 10 {
        (n + 48) as char
    } else {
        (n - 10 + 97) as char
    }
}

/// Lowercase hex encoding: two characters per byte, high nibble first.
pub open spec fn hex_of(bytes: Seq<u8>) -> Seq<char>
    decreases bytes.len(),
{
    if bytes.len() == 0 {
        Seq::empty()
    } else {
        let b = bytes.last();
        hex_of(bytes.drop_last()) + seq![hex_digit(b / 16), hex_digit(b % 16)]
    }
}

/// Trusted: `hex::encode` writes each byte as two lowercase hex digits,
/// high nibble first (its source maps bytes through the table
/// `0123456789abcdef`).
#[verifier::external_body]
fn hex_encode(bytes: &[u8]) -> (s: String)
    ensures
        s@ == hex_of(bytes@),
{
    hex::encode(bytes)
}

fn push_bytes(dst: &mut Vec<u8>, src: &[u8])
    ensures
        final(dst)@ == old(dst)@ + src@,
{
    let mut i: usize = 0;
    while i < src.len()
        invariant
            i <= src.len(),
            dst@ == old(dst)@ + src@.take(i as int),
        decreases src.len() - i,
    {
        dst.push(src[i]);
        assert(src@.take(i + 1) == src@.take(i as int).push(src@[i as int]));
        i += 1;
    }
    assert(src@.take(src.len() as int) == src@);
}

/// UTF-8 bytes of a string.
pub open spec fn utf8(s: Seq<char>) -> Seq<u8> {
    vstd::utf8::encode_utf8(s)
}

/// The bytes hashed into a skill's cache key: name, version and source,
/// each part ended by a zero byte, the source tagged by its kind.
pub open spec fn key_material(m: SkillManifest) -> Seq<u8> {
    utf8(m.name@) + seq![0u8] + utf8(m.version@) + seq![0u8] + match m.source {
        SkillSource::Oci { image, .. } => utf8("oci"@) + seq![0u8] + utf8(image@),
        SkillSource::NatsObjectStore { bucket, key, .. } => utf8("obj"@) + seq![0u8] + utf8(
            bucket@,
        ) + seq![0u8] + utf8(key@),
        SkillSource::File { path, .. } => utf8("file"@) + seq![0u8] + utf8(path@),
    }
}

fn push_text(dst: &mut Vec<u8>, s: &str)
    ensures
        final(dst)@ == old(dst)@ + utf8(s@),
{
    push_bytes(dst, s.as_bytes());
}

/// The bytes that identify a skill build for caching.
pub fn cache_key_material(m: &SkillManifest) -> (v: Vec<u8>)
    ensures
        v@ == key_material(*m),
{
    let mut v: Vec<u8> = Vec::new();
    push_text(&mut v, m.name.as_str());
    v.push(0);
    push_text(&mut v, m.version.as_str());
    v.push(0);
    let ghost head = v@;
    match &m.source {
        SkillSource::Oci { image, .. } => {
            push_text(&mut v, "oci");
            v.push(0);
            push_text(&mut v, image.as_str());
            assert(v@ == head + (utf8("oci"@) + seq![0u8] + utf8(image@)));
        },
        SkillSource::NatsObjectStore { bucket, key, .. } => {
            push_text(&mut v, "obj");
            v.push(0);
            push_text(&mut v, bucket.as_str());
            v.push(0);
            push_text(&mut v, key.as_str());
            assert(v@ == head + (utf8("obj"@) + seq![0u8] + utf8(bucket@) + seq![0u8] + utf8(key@)));
        },
        SkillSource::File { path, .. } => {
            push_text(&mut v, "file");
            v.push(0);
            push_text(&mut v, path.as_str());
            assert(v@ == head + (utf8("file"@) + seq![0u8] + utf8(path@)));
        },
    }
    v
}

/// The cache file name of a skill: the hex SHA-256 of its key material
/// with a `.wasm` suffix. Stable per (name, version, source).
pub fn cache_key_for(m: &SkillManifest) -> (s: String)
    ensures
        s@ == hex_of(sha256_of(key_material(*m))) + ".wasm"@,
{
    let material = cache_key_material(m);
    let digest = sha256(material.as_slice());
    let h = hex_encode(digest.as_slice());
    let mut v: Vec<char> = Vec::new();
    push_str(&mut v, h.as_str());
    push_str(&mut v, ".wasm");
    string_from_chars(v.as_slice())
}

/// The cache key depends only on the name, the version and where the
/// component comes from: two manifests that agree on those share a cache
/// entry, whatever their pins, limits or capabilities.
pub proof fn lemma_cache_key_stable(a: SkillManifest, b: SkillManifest)
    requires
        a.name@ == b.name@,
        a.version@ == b.version@,
        match (a.source, b.source) {
            (SkillSource::Oci { image: x, .. }, SkillSource::Oci { image: y, .. }) => x@ == y@,
            (SkillSource::NatsObjectStore { bucket: x, key: k, .. }, SkillSource::NatsObjectStore { bucket: y, key: l, .. }) => x@
                == y@ && k@ == l@,
            (SkillSource::File { path: x, .. }, SkillSource::File { path: y, .. }) => x@ == y@,
            _ => false,
        },
    ensures
        hex_of(sha256_of(key_material(a))) + ".wasm"@ == hex_of(sha256_of(key_material(b))) + ".wasm"@,
{
    assert(key_material(a) == key_material(b));
}

/// The SHA-256 pin a source declares, if any.
pub open spec fn pinned_hash(src: SkillSource) -> Option<Seq<char>> {
    match src {
        SkillSource::Oci { sha256, .. } => match sha256 {
            Some(h) => Some(h@),
            None => None,
        },
        SkillSource::NatsObjectStore { sha256, .. } => Some(sha256@),
        SkillSource::File { sha256, .. } => match sha256 {
            Some(h) => Some(h@),
            None => None,
        },
    }
}

/// ASCII lowercase of one character.
pub open spec fn ascii_lower(c: char) -> char {
    if 'A' <= c <= 'Z' {
        ((c as u32) + 32) as char
    } else {
        c
    }
}

/// Equality up to ASCII case.
pub open spec fn eq_ignore_ascii_case(a: Seq<char>, b: Seq<char>) -> bool {
    a.len() == b.len() && forall|i: int| 0 <= i < a.len() ==> ascii_lower(#[trigger] a[i]) == ascii_lower(b[i])
}

fn lower(c: char) -> (r: char)
    ensures
        r == ascii_lower(c),
{
    if 'A' <= c && c <= 'Z' {
        let n: u8 = ((c as u32) + 32) as u8;
        n as char
    } else {
        c
    }
}

/// Compares two strings ignoring ASCII case.
pub fn str_eq_ignore_ascii_case(a: &str, b: &str) -> (r: bool)
    ensures
        r == eq_ignore_ascii_case(a@, b@),
{
    let x = crate::text::chars_of(a);
    let y = crate::text::chars_of(b);
    if x.len() != y.len() {
        return false;
    }
    let mut i: usize = 0;
    while i < x.len()
        invariant
            i <= x.len(),
            x@ == a@,
            y@ == b@,
            x.len() == y.len(),
            forall|j: int| 0 <= j < i ==> ascii_lower(#[trigger] x@[j]) == ascii_lower(y@[j]),
        decreases x.len() - i,
    {
        if lower(x[i]) != lower(y[i]) {
            return false;
        }
        i += 1;
    }
    true
}

/// Whether `bytes` match the manifest's pin: always when nothing is
/// pinned, else when the hex SHA-256 of the bytes equals the pin up to
/// ASCII case.
pub fn hash_ok(m: &SkillManifest, bytes: &[u8]) -> (r: bool)
    ensures
        r == match pinned_hash(m.source) {
            None => true,
            Some(expected) => eq_ignore_ascii_case(hex_of(sha256_of(bytes@)), expected),
        },
{
    let expected: Option<&String> = match &m.source {
        SkillSource::Oci { sha256, .. } => sha256.as_ref(),
        SkillSource::NatsObjectStore { sha256, .. } => Some(sha256),
        SkillSource::File { sha256, .. } => sha256.as_ref(),
    };
    match expected {
        None => true,
        Some(e) => {
            let digest = sha256(bytes);
            let actual = hex_encode(digest.as_slice());
            str_eq_ignore_ascii_case(actual.as_str(), e.as_str())
        },
    }
}

/// Where a skill's bytes are fetched from when the cache misses.
#[derive(Debug)]
pub enum FetchFrom {
    Oci(String),
    NatsObject(String, String),
    File(String),
}

/// The fetch to perform for a source.
pub fn fetch_from(src: &SkillSource) -> (f: FetchFrom)
    ensures
        match *src {
            SkillSource::Oci { image, .. } => f matches FetchFrom::Oci(i) && i@ == image@,
            SkillSource::NatsObjectStore { bucket, key, .. } => f matches FetchFrom::NatsObject(b, k)
                && b@ == bucket@ && k@ == key@,
            SkillSource::File { path, .. } => f matches FetchFrom::File(p) && p@ == path@,
        },
{
    match src {
        SkillSource::Oci { image, .. } => FetchFrom::Oci(image.clone()),
        SkillSource::NatsObjectStore { bucket, key, .. } => FetchFrom::NatsObject(bucket.clone(), key.clone()),
        SkillSource::File { path, .. } => FetchFrom::File(path.clone()),
    }
}

/// The error text of fetched bytes that fail the pin.
pub open spec fn mismatch_text(m: SkillManifest) -> Seq<char> {
    "sha256 mismatch for skill "@ + m.name@ + " "@ + m.version@
}

/// Accepts freshly fetched bytes only when they match the pin.
pub fn check_fetched(m: &SkillManifest, bytes: Vec<u8>) -> (r: Result<Vec<u8>, String>)
    ensures
        match pinned_hash(m.source) {
            None => r == Ok::<Vec<u8>, String>(bytes),
            Some(expected) => if eq_ignore_ascii_case(hex_of(sha256_of(bytes@)), expected) {
                r == Ok::<Vec<u8>, String>(bytes)
            } else {
                r matches Err(e) && e@ == mismatch_text(*m)
            },
        },
{
    if hash_ok(m, bytes.as_slice()) {
        Ok(bytes)
    } else {
        let mut v: Vec<char> = Vec::new();
        push_str(&mut v, "sha256 mismatch for skill ");
        push_str(&mut v, m.name.as_str());
        push_str(&mut v, " ");
        push_str(&mut v, m.version.as_str());
        Err(string_from_chars(v.as_slice()))
    }
}

/// Whether bytes pass the manifest's pin (always, when nothing is pinned).
pub open spec fn pin_holds(m: SkillManifest, bytes: Seq<u8>) -> bool {
    match pinned_hash(m.source) {
        None => true,
        Some(expected) => eq_ignore_ascii_case(hex_of(sha256_of(bytes)), expected),
    }
}

/// What to do with the cache entry of a skill.
#[derive(Debug)]
pub enum CacheUse {
    /// The cached bytes pass the pin: use them.
    Hit(Vec<u8>),
    /// Nothing is cached: fetch from the source.
    Fetch,
    /// The cached bytes fail the pin: drop the entry, then fetch.
    Refetch,
}

/// Decides on the cache entry of a skill: `cached` is the entry's bytes,
/// `None` when there is none.
pub fn cache_decision(m: &SkillManifest, cached: Option<Vec<u8>>) -> (r: CacheUse)
    ensures
        match cached {
            None => r is Fetch,
            Some(b) => if pin_holds(*m, b@) {
                r == CacheUse::Hit(b)
            } else {
                r is Refetch
            },
        },
{
    match cached {
        None => CacheUse::Fetch,
        Some(b) => if hash_ok(m, b.as_slice()) {
            CacheUse::Hit(b)
        } else {
            CacheUse::Refetch
        },
    }
}

/// The skill loader: a local cache directory in front of the sources.
#[derive(Clone, Debug)]
pub struct Loader {
    pub cache_dir: String,
}

impl Loader {
    /// A loader caching under `cache_dir` (the directory is created by the
    /// caller).
    pub fn new(cache_dir: String) -> (l: Loader)
        ensures
            l.cache_dir@ == cache_dir@,
    {
        Loader { cache_dir }
    }

    /// Path of a cache entry: the cache directory joined with the key.
    pub fn cache_path(&self, key: &str) -> (p: String)
        ensures
            p@ == if self.cache_dir@.len() > 0 && self.cache_dir@.last() == '/' {
                self.cache_dir@ + key@
            } else if self.cache_dir@.len() == 0 {
                key@
            } else {
                self.cache_dir@ + "/"@ + key@
            },
    {
        let d = crate::text::chars_of(self.cache_dir.as_str());
        let mut v: Vec<char> = Vec::new();
        push_str(&mut v, self.cache_dir.as_str());
        if d.len() > 0 && d[d.len() - 1] != '/' {
            push_str(&mut v, "/");
        }
        push_str(&mut v, key);
        string_from_chars(v.as_slice())
    }
}

} // verus!
