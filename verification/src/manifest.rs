//! Reading a skill manifest from its JSON document: the name, version and
//! source are required; the source is tagged by `type` (`oci`,
//! `nats-object-store`, `file`); capabilities, limits, description and
//! parameters have defaults.

use vstd::prelude::*;
use crate::agent_core::opt_str;
use crate::config::strings_view;
use crate::json::{field, text_of, Json};
use crate::records::{opt_str_field, record_fields, req_str};
use crate::tool_runner::{SkillManifest, SkillSource};

verus! {

/// The parameters schema a manifest without one gets.
pub open spec fn default_parameters() -> Seq<char> {
    "{\"properties\":{},\"required\":[],\"type\":\"object\"}"@
}

/// A view of a source: the tag (0 OCI, 1 object store, 2 file) and its
/// fields (image / bucket, key / path; and the pin).
pub open spec fn source_view(s: SkillSource) -> (int, Seq<char>, Seq<char>, Option<Seq<char>>) {
    match s {
        SkillSource::Oci { image, sha256 } => (0, image@, Seq::empty(), opt_str(sha256)),
        SkillSource::NatsObjectStore { bucket, key, sha256 } => (1, bucket@, key@, Some(sha256@)),
        SkillSource::File { path, sha256 } => (2, path@, Seq::empty(), opt_str(sha256)),
    }
}

/// The variant a source tag names.
pub open spec fn tag_of(t: Seq<char>) -> Option<int> {
    if t == "oci"@ {
        Some(0)
    } else if t == "nats-object-store"@ {
        Some(1)
    } else if t == "file"@ {
        Some(2)
    } else {
        None
    }
}

/// The tag and the variant's fields of a source document: an object
/// carries the tag as its `type` member and the fields by name (others
/// ignored); an array carries the tag first and the fields after it, in
/// order (an optional pin may be left out).
pub open spec fn source_parts(j: Json) -> Option<(Option<Json>, Seq<Option<Json>>)> {
    match j {
        Json::Object(_) => Some(
            (
                field(j, "type"@),
                seq![field(j, "image"@), field(j, "bucket"@), field(j, "key"@), field(j, "path"@), field(j, "sha256"@)],
            ),
        ),
        Json::Array(v) => if v@.len() >= 1 {
            Some((Some(v@[0]), v@.drop_first().map_values(|x: Json| Some(x))))
        } else {
            None
        },
        _ => None,
    }
}

/// The source a document decodes to.
pub open spec fn source_of(j: Json) -> Option<(int, Seq<char>, Seq<char>, Option<Seq<char>>)> {
    match source_parts(j) {
        None => None,
        Some((tag, rest)) => match req_str(tag) {
            None => None,
            Some(t) => match tag_of(t) {
                None => None,
                Some(k) => if j is Object {
                    if k == 0 {
                        match (req_str(rest[0]), opt_str_field(rest[4])) {
                            (Some(image), Some(pin)) => Some((0, image, Seq::empty(), pin)),
                            _ => None,
                        }
                    } else if k == 1 {
                        match (req_str(rest[1]), req_str(rest[2]), req_str(rest[4])) {
                            (Some(b), Some(key), Some(pin)) => Some((1, b, key, Some(pin))),
                            _ => None,
                        }
                    } else {
                        match (req_str(rest[3]), opt_str_field(rest[4])) {
                            (Some(path), Some(pin)) => Some((2, path, Seq::empty(), pin)),
                            _ => None,
                        }
                    }
                } else {
                    if k == 1 {
                        if rest.len() == 3 {
                            match (req_str(rest[0]), req_str(rest[1]), req_str(rest[2])) {
                                (Some(b), Some(key), Some(pin)) => Some((1, b, key, Some(pin))),
                                _ => None,
                            }
                        } else {
                            None
                        }
                    } else if 1 <= rest.len() <= 2 {
                        let pin = if rest.len() == 2 {
                            opt_str_field(rest[1])
                        } else {
                            Some(None)
                        };
                        match (req_str(rest[0]), pin) {
                            (Some(x), Some(p)) => Some((k, x, Seq::empty(), p)),
                            _ => None,
                        }
                    } else {
                        None
                    }
                },
            },
        },
    }
}

fn read_str(j: Option<&Json>) -> (r: Option<String>)
    ensures
        opt_str(r) == req_str(match j {
            Some(x) => Some(*x),
            None => None,
        }),
{
    match j {
        Some(Json::Str(s)) => Some(s.clone()),
        _ => None,
    }
}

fn read_opt_str(j: Option<&Json>) -> (r: Option<Option<String>>)
    ensures
        match opt_str_field(match j {
            Some(x) => Some(*x),
            None => None,
        }) {
            None => r is None,
            Some(o) => r matches Some(x) && opt_str(x) == o,
        },
{
    match j {
        None => Some(None),
        Some(Json::Null) => Some(None),
        Some(Json::Str(s)) => Some(Some(s.clone())),
        _ => None,
    }
}

fn tag_from(t: &str) -> (r: Option<u8>)
    ensures
        match tag_of(t@) {
            None => r is None,
            Some(k) => r == Some(k as u8),
        },
{
    if crate::text::str_eq(t, "oci") {
        Some(0)
    } else if crate::text::str_eq(t, "nats-object-store") {
        Some(1)
    } else if crate::text::str_eq(t, "file") {
        Some(2)
    } else {
        None
    }
}

/// Reads a skill source.
#[verifier::rlimit(40)]
pub fn read_source(j: &Json) -> (r: Option<SkillSource>)
    ensures
        match source_of(*j) {
            None => r is None,
            Some(v) => r matches Some(s) && source_view(s) == v,
        },
{
    match j {
        Json::Object(_) => {
            let t = match read_str(crate::json::get(j, "type")) {
                Some(t) => t,
                None => return None,
            };
            let k = match tag_from(t.as_str()) {
                Some(k) => k,
                None => return None,
            };
            if k == 0 {
                match (read_str(crate::json::get(j, "image")), read_opt_str(crate::json::get(j, "sha256"))) {
                    (Some(image), Some(sha256)) => Some(SkillSource::Oci { image, sha256 }),
                    _ => None,
                }
            } else if k == 1 {
                match (
                    read_str(crate::json::get(j, "bucket")),
                    read_str(crate::json::get(j, "key")),
                    read_str(crate::json::get(j, "sha256")),
                ) {
                    (Some(bucket), Some(key), Some(sha256)) => Some(SkillSource::NatsObjectStore { bucket, key, sha256 }),
                    _ => None,
                }
            } else {
                match (read_str(crate::json::get(j, "path")), read_opt_str(crate::json::get(j, "sha256"))) {
                    (Some(path), Some(sha256)) => Some(SkillSource::File { path, sha256 }),
                    _ => None,
                }
            }
        },
        Json::Array(v) => {
            if v.len() < 1 {
                return None;
            }
            let ghost rest = v@.drop_first().map_values(|x: Json| Some(x));
            let t = match read_str(Some(&v[0])) {
                Some(t) => t,
                None => return None,
            };
            let k = match tag_from(t.as_str()) {
                Some(k) => k,
                None => return None,
            };
            let n = v.len() - 1;
            assert(rest.len() == n);
            if k == 1 {
                if n != 3 {
                    return None;
                }
                assert(rest[0] == Some(v@[1]));
                assert(rest[1] == Some(v@[2]));
                assert(rest[2] == Some(v@[3]));
                match (read_str(Some(&v[1])), read_str(Some(&v[2])), read_str(Some(&v[3]))) {
                    (Some(bucket), Some(key), Some(sha256)) => Some(SkillSource::NatsObjectStore { bucket, key, sha256 }),
                    _ => None,
                }
            } else {
                if n < 1 || n > 2 {
                    return None;
                }
                assert(rest[0] == Some(v@[1]));
                let pin = if n == 2 {
                    assert(rest[1] == Some(v@[2]));
                    read_opt_str(Some(&v[2]))
                } else {
                    Some(None)
                };
                match (read_str(Some(&v[1])), pin) {
                    (Some(x), Some(p)) => if k == 0 {
                        Some(SkillSource::Oci { image: x, sha256: p })
                    } else {
                        Some(SkillSource::File { path: x, sha256: p })
                    },
                    _ => None,
                }
            }
        },
        _ => None,
    }
}

pub open spec fn manifest_names() -> Seq<Seq<char>> {
    seq![
        "name"@,
        "version"@,
        "source"@,
        "capabilities"@,
        "fuel_limit"@,
        "memory_max_bytes"@,
        "wall_deadline_ms"@,
        "description"@,
        "parameters"@,
    ]
}

/// An optional unsigned limit: absent or `null` is none.
pub open spec fn opt_u64_field(f: Option<Json>) -> Option<Option<u64>> {
    match f {
        None => Some(None),
        Some(Json::Null) => Some(None),
        Some(x) => match crate::json::u64_of(Some(x)) {
            Some(n) => Some(Some(n)),
            None => None,
        },
    }
}

/// A list of strings that defaults to empty.
pub open spec fn list_or_empty(f: Option<Json>) -> Option<Seq<Seq<char>>> {
    match f {
        None => Some(Seq::empty()),
        Some(x) => crate::events::string_list(x),
    }
}

pub type ManifestView = (
    Seq<char>,
    Seq<char>,
    (int, Seq<char>, Seq<char>, Option<Seq<char>>),
    Seq<Seq<char>>,
    Option<u64>,
    Option<u64>,
    Option<u64>,
    Seq<char>,
    Seq<char>,
);

pub open spec fn manifest_view(m: SkillManifest) -> ManifestView {
    (
        m.name@,
        m.version@,
        source_view(m.source),
        strings_view(m.capabilities@),
        m.fuel_limit,
        m.memory_max_bytes,
        m.wall_deadline_ms,
        m.description@,
        m.parameters@,
    )
}

/// The manifest a document decodes to: name, version and source are
/// required; capabilities default to none, the limits to unset, the
/// description to empty, the parameters to an empty object schema (a
/// present `parameters` is kept as its JSON text, `null` included).
pub open spec fn manifest_of(j: Json) -> Option<ManifestView> {
    match record_fields(j, manifest_names(), 3) {
        None => None,
        Some(f) => {
            let name = req_str(f[0]);
            let version = req_str(f[1]);
            let source: Option<(int, Seq<char>, Seq<char>, Option<Seq<char>>)> = match f[2] {
                Some(s) => source_of(s),
                None => None,
            };
            let caps = list_or_empty(f[3]);
            let fuel = opt_u64_field(f[4]);
            let mem = opt_u64_field(f[5]);
            let wall = opt_u64_field(f[6]);
            let desc = crate::telegram::str_field_or(f[7], Seq::empty());
            let params = match f[8] {
                Some(p) => text_of(p),
                None => default_parameters(),
            };
            if name is Some && version is Some && source is Some && caps is Some && fuel is Some && mem is Some
                && wall is Some && desc is Some {
                Some((name->0, version->0, source->0, caps->0, fuel->0, mem->0, wall->0, desc->0, params))
            } else {
                None
            }
        },
    }
}

fn read_opt_u64(j: Option<&Json>) -> (r: Option<Option<u64>>)
    ensures
        r == opt_u64_field(match j {
            Some(x) => Some(*x),
            None => None,
        }),
{
    match j {
        None => Some(None),
        Some(Json::Null) => Some(None),
        Some(x) => match crate::json::as_u64(Some(x)) {
            Some(n) => Some(Some(n)),
            None => None,
        },
    }
}

fn read_list(j: Option<&Json>) -> (r: Option<Vec<String>>)
    ensures
        match list_or_empty(match j {
            Some(x) => Some(*x),
            None => None,
        }) {
            None => r is None,
            Some(t) => r matches Some(v) && strings_view(v@) == t,
        },
{
    match j {
        None => Some(Vec::new()),
        Some(Json::Array(items)) => {
            let mut out: Vec<String> = Vec::new();
            let mut i: usize = 0;
            while i < items.len()
                invariant
                    i <= items@.len(),
                    match j {
                        Some(x) => *x == Json::Array(*items),
                        None => false,
                    },
                    crate::events::all_strings(items@.take(i as int)),
                    strings_view(out@) == crate::events::str_items(items@.take(i as int)),
                decreases items.len() - i,
            {
                assert(items@.take(i + 1).drop_last() =~= items@.take(i as int));
                match &items[i] {
                    Json::Str(s) => {
                        let ghost prev = out@;
                        out.push(s.clone());
                        assert(strings_view(out@) =~= strings_view(prev).push(s@));
                        assert(crate::events::str_items(items@.take(i + 1)) =~= crate::events::str_items(
                            items@.take(i as int),
                        ).push(s@));
                    },
                    _ => {
                        assert(!crate::events::all_strings(items@));
                        return None;
                    },
                }
                i += 1;
            }
            assert(items@.take(items@.len() as int) =~= items@);
            Some(out)
        },
        Some(_) => None,
    }
}

/// Reads a skill manifest.
#[verifier::rlimit(40)]
pub fn read_manifest(j: &Json) -> (r: Option<SkillManifest>)
    ensures
        match manifest_of(*j) {
            None => r is None,
            Some(v) => r matches Some(m) && manifest_view(m) == v,
        },
{
    let names: [&str; 9] = [
        "name",
        "version",
        "source",
        "capabilities",
        "fuel_limit",
        "memory_max_bytes",
        "wall_deadline_ms",
        "description",
        "parameters",
    ];
    assert(names@.map_values(|n: &str| n@) =~= manifest_names());
    let f = match crate::task_record::record_refs(j, names.as_slice(), 3) {
        Some(f) => f,
        None => return None,
    };
    let name = match read_str(f[0]) {
        Some(x) => x,
        None => return None,
    };
    let version = match read_str(f[1]) {
        Some(x) => x,
        None => return None,
    };
    let source = match f[2] {
        Some(s) => match read_source(s) {
            Some(x) => x,
            None => return None,
        },
        None => return None,
    };
    let capabilities = match read_list(f[3]) {
        Some(x) => x,
        None => return None,
    };
    let fuel_limit = match read_opt_u64(f[4]) {
        Some(x) => x,
        None => return None,
    };
    let memory_max_bytes = match read_opt_u64(f[5]) {
        Some(x) => x,
        None => return None,
    };
    let wall_deadline_ms = match read_opt_u64(f[6]) {
        Some(x) => x,
        None => return None,
    };
    let description = match f[7] {
        None => String::new(),
        Some(Json::Str(d)) => d.clone(),
        Some(_) => return None,
    };
    let parameters = match f[8] {
        Some(p) => crate::json::to_text(p),
        None => "{\"properties\":{},\"required\":[],\"type\":\"object\"}".to_string(),
    };
    Some(
        SkillManifest {
            name,
            version,
            source,
            capabilities,
            fuel_limit,
            memory_max_bytes,
            wall_deadline_ms,
            description,
            parameters,
        },
    )
}

} // verus!
