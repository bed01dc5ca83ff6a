//! The document layer: reading a record out of TOML configuration text
//! and writing its fields back while the text's comments and layout are
//! preserved. The text is handled by `toml_edit` behind the trusted
//! wrappers collected here; parsing and key lookup are functions of the
//! text alone, so their results carry names (`toml_parses`,
//! `toml_present`, `toml_table`, `toml_scalar`) that the wrappers' and
//! the public functions' contracts share. Every decision about content is
//! made by verified code over plain values.

use vstd::prelude::*;

use toml_edit::DocumentMut;

use crate::bump::BumpError;
use crate::config::Config;
use crate::clock::now_formatted;
use crate::fields::{
    cal_config_of_fields, cal_fields_ok, calver_config_from_fields, calver_fields_of,
    sem_config_of_fields, sem_fields_ok, semver_config_from_fields, semver_fields_of,
    CalVerFields, FieldVal, SemVerFields,
};
use crate::version::{Version, VersionType};

verus! {

/// Whether the text is well-formed TOML. Parsing is deterministic, so
/// this is a function of the text alone.
pub uninterp spec fn toml_parses(s: Seq<char>) -> bool;

/// Whether the key path resolves to anything in the parsed text.
pub uninterp spec fn toml_present(s: Seq<char>, path: Seq<Seq<char>>) -> bool;

/// Whether the key path resolves to a table in the parsed text.
pub uninterp spec fn toml_table(s: Seq<char>, path: Seq<Seq<char>>) -> bool;

/// The scalar the key path resolves to in the parsed text: absent,
/// text, an integer, or something of another shape.
pub uninterp spec fn toml_scalar(s: Seq<char>, path: Seq<Seq<char>>) -> FieldVal;

/// The three-segment path `{sect}.{sub}.{key}`.
pub open spec fn spath(sect: Seq<char>, sub: Seq<char>, key: Seq<char>) -> Seq<Seq<char>> {
    seq![sect, sub, key]
}

/// Three-segment paths with a differing segment differ.
proof fn lemma_spath_ne(a: Seq<Seq<char>>, b: Seq<Seq<char>>)
    requires
        a.len() == 3,
        b.len() == 3,
        a[0] != b[0] || a[1] != b[1] || a[2] != b[2],
    ensures
        a != b,
{
}

/// Relies on `DocumentMut`'s `FromStr`: the text parses exactly when it
/// is well-formed TOML; a syntax error comes back as its message.
#[verifier::external_body]
fn parse_error_text(s: &str) -> (r: Option<String>)
    ensures
        r is Some <==> !toml_parses(s@),
{
    match s.parse::<DocumentMut>() {
        Ok(_) => None,
        Err(e) => Some(format!("{e}")),
    }
}

/// Relies on `DocumentMut`'s `FromStr` and `Table::get`: whether the text
/// holds anything under the given root key.
#[verifier::external_body]
fn root_present(s: &str, key: &str) -> (r: bool)
    requires
        toml_parses(s@),
    ensures
        r == toml_present(s@, seq![key@]),
{
    match s.parse::<DocumentMut>() {
        Ok(d) => d.as_table().get(key).is_some(),
        Err(_) => false,
    }
}

/// Relies on `DocumentMut`'s `FromStr`, `Table::get`, `Item::get`,
/// `Item::as_str` and `Item::as_integer`: the scalar stored under
/// `{sect}.{sub}.{key}`, as the library's own shape.
#[verifier::external_body]
fn read_scalar(s: &str, sect: &str, sub: &str, key: &str) -> (f: FieldVal)
    requires
        toml_parses(s@),
    ensures
        f == toml_scalar(s@, spath(sect@, sub@, key@)),
{
    let doc: DocumentMut = match s.parse() { Ok(d) => d, Err(_) => return FieldVal::Missing };
    let t1 = match doc.as_table().get(sect) { Some(i) => i, None => return FieldVal::Missing };
    let t2 = match t1.get(sub) { Some(i) => i, None => return FieldVal::Missing };
    let leaf = match t2.get(key) { Some(i) => i, None => return FieldVal::Missing };
    if let Some(x) = leaf.as_str() { return FieldVal::Text(x.to_owned()) }
    match leaf.as_integer() { Some(n) => FieldVal::Num(n), None => FieldVal::Other }
}

/// Relies on `DocumentMut`'s `FromStr` and `Display`, `Table::get_mut`,
/// `Item::get_mut`, `Item::as_table_like_mut` and `TableLike::insert`:
/// stores a string under `{sect}.{sub}.{key}` and returns the
/// re-serialized text, leaving every other entry, the comments and the
/// layout alone. `None` exactly when `{sect}.{sub}` is not a table.
#[verifier::external_body]
fn write_scalar_str(s: &str, sect: &str, sub: &str, key: &str, v: &str) -> (r: Option<String>)
    requires
        toml_parses(s@),
    ensures
        r is Some <==> toml_table(s@, seq![sect@, sub@]),
        r matches Some(t) ==> {
            &&& toml_parses(t@)
            &&& (toml_scalar(t@, spath(sect@, sub@, key@)) matches FieldVal::Text(x) && x@ == v@)
            &&& forall|p: Seq<Seq<char>>|
                p != spath(sect@, sub@, key@) ==> #[trigger] toml_scalar(t@, p) == toml_scalar(
                    s@,
                    p,
                )
            &&& forall|p: Seq<Seq<char>>|
                p != spath(sect@, sub@, key@) ==> #[trigger] toml_table(t@, p) == toml_table(s@, p)
        },
{
    let mut doc: DocumentMut = match s.parse() { Ok(d) => d, Err(_) => return None };
    let t1 = match doc.as_table_mut().get_mut(sect) { Some(i) => i, None => return None };
    let t2 = match t1.get_mut(sub) { Some(i) => i, None => return None };
    let table = match t2.as_table_like_mut() { Some(x) => x, None => return None };
    table.insert(key, toml_edit::value(v));
    Some(format!("{doc}"))
}

/// Relies on the same calls as `write_scalar_str`: stores an integer
/// under `{sect}.{sub}.{key}`.
#[verifier::external_body]
fn write_scalar_int(s: &str, sect: &str, sub: &str, key: &str, v: i64) -> (r: Option<String>)
    requires
        toml_parses(s@),
    ensures
        r is Some <==> toml_table(s@, seq![sect@, sub@]),
        r matches Some(t) ==> {
            &&& toml_parses(t@)
            &&& (toml_scalar(t@, spath(sect@, sub@, key@)) matches FieldVal::Num(n) && n == v)
            &&& forall|p: Seq<Seq<char>>|
                p != spath(sect@, sub@, key@) ==> #[trigger] toml_scalar(t@, p) == toml_scalar(
                    s@,
                    p,
                )
            &&& forall|p: Seq<Seq<char>>|
                p != spath(sect@, sub@, key@) ==> #[trigger] toml_table(t@, p) == toml_table(s@, p)
        },
{
    let mut doc: DocumentMut = match s.parse() { Ok(d) => d, Err(_) => return None };
    let t1 = match doc.as_table_mut().get_mut(sect) { Some(i) => i, None => return None };
    let t2 = match t1.get_mut(sub) { Some(i) => i, None => return None };
    let table = match t2.as_table_like_mut() { Some(x) => x, None => return None };
    table.insert(key, toml_edit::value(v));
    Some(format!("{doc}"))
}

/// The `[semver]` scalars the text holds.
pub open spec fn spec_semver_fields(s: Seq<char>) -> SemVerFields {
    SemVerFields {
        prefix: toml_scalar(s, spath("semver"@, "format"@, "prefix"@)),
        delimiter: toml_scalar(s, spath("semver"@, "format"@, "delimiter"@)),
        timestamp: toml_scalar(s, spath("semver"@, "format"@, "timestamp"@)),
        major: toml_scalar(s, spath("semver"@, "version"@, "major"@)),
        minor: toml_scalar(s, spath("semver"@, "version"@, "minor"@)),
        patch: toml_scalar(s, spath("semver"@, "version"@, "patch"@)),
        candidate: toml_scalar(s, spath("semver"@, "version"@, "candidate"@)),
        cand_promotion: toml_scalar(s, spath("semver"@, "candidate"@, "promotion"@)),
        cand_delimiter: toml_scalar(s, spath("semver"@, "candidate"@, "delimiter"@)),
        dev_promotion: toml_scalar(s, spath("semver"@, "development"@, "promotion"@)),
        dev_delimiter: toml_scalar(s, spath("semver"@, "development"@, "delimiter"@)),
    }
}

/// The `[calver]` scalars the text holds.
pub open spec fn spec_calver_fields(s: Seq<char>) -> CalVerFields {
    CalVerFields {
        prefix: toml_scalar(s, spath("calver"@, "format"@, "prefix"@)),
        delimiter: toml_scalar(s, spath("calver"@, "format"@, "delimiter"@)),
        year_fmt: toml_scalar(s, spath("calver"@, "format"@, "year"@)),
        month_fmt: toml_scalar(s, spath("calver"@, "format"@, "month"@)),
        day_fmt: toml_scalar(s, spath("calver"@, "format"@, "day"@)),
        year: toml_scalar(s, spath("calver"@, "version"@, "year"@)),
        month: toml_scalar(s, spath("calver"@, "version"@, "month"@)),
        day: toml_scalar(s, spath("calver"@, "version"@, "day"@)),
        revision: toml_scalar(s, spath("calver"@, "conflict"@, "revision"@)),
        conflict_delimiter: toml_scalar(s, spath("calver"@, "conflict"@, "delimiter"@)),
    }
}

/// Collects every `[semver]` scalar from the text.
fn semver_fields_from_doc(s: &str) -> (f: SemVerFields)
    requires
        toml_parses(s@),
    ensures
        f == spec_semver_fields(s@),
{
    SemVerFields {
        prefix: read_scalar(s, "semver", "format", "prefix"),
        delimiter: read_scalar(s, "semver", "format", "delimiter"),
        timestamp: read_scalar(s, "semver", "format", "timestamp"),
        major: read_scalar(s, "semver", "version", "major"),
        minor: read_scalar(s, "semver", "version", "minor"),
        patch: read_scalar(s, "semver", "version", "patch"),
        candidate: read_scalar(s, "semver", "version", "candidate"),
        cand_promotion: read_scalar(s, "semver", "candidate", "promotion"),
        cand_delimiter: read_scalar(s, "semver", "candidate", "delimiter"),
        dev_promotion: read_scalar(s, "semver", "development", "promotion"),
        dev_delimiter: read_scalar(s, "semver", "development", "delimiter"),
    }
}

/// Collects every `[calver]` scalar from the text.
fn calver_fields_from_doc(s: &str) -> (f: CalVerFields)
    requires
        toml_parses(s@),
    ensures
        f == spec_calver_fields(s@),
{
    CalVerFields {
        prefix: read_scalar(s, "calver", "format", "prefix"),
        delimiter: read_scalar(s, "calver", "format", "delimiter"),
        year_fmt: read_scalar(s, "calver", "format", "year"),
        month_fmt: read_scalar(s, "calver", "format", "month"),
        day_fmt: read_scalar(s, "calver", "format", "day"),
        year: read_scalar(s, "calver", "version", "year"),
        month: read_scalar(s, "calver", "version", "month"),
        day: read_scalar(s, "calver", "version", "day"),
        revision: read_scalar(s, "calver", "conflict", "revision"),
        conflict_delimiter: read_scalar(s, "calver", "conflict", "delimiter"),
    }
}

/// What `Version::from_toml_str` owes for every text: ill-formed TOML and
/// ill-shaped fields are configuration errors; declaring both scheme
/// sections, or neither, is a logic error with its own message; and a
/// well-formed document with exactly one scheme section and clean fields
/// always loads, into exactly the record its scalars denote.
pub open spec fn load_rel(s: Seq<char>, path: Seq<char>, r: Result<Version, BumpError>) -> bool {
    if !toml_parses(s) {
        r matches Err(e) && e is TomlError
    } else if toml_present(s, seq!["semver"@]) && toml_present(s, seq!["calver"@]) {
        r matches Err(e) && e matches BumpError::LogicError(m) && m@
            == "configuration declares both [semver] and [calver]; the sections are mutually exclusive"@
    } else if !toml_present(s, seq!["semver"@]) && !toml_present(s, seq!["calver"@]) {
        r matches Err(e) && e matches BumpError::LogicError(m) && m@
            == "configuration declares neither a [semver] nor a [calver] section"@
    } else if toml_present(s, seq!["semver"@]) {
        if sem_fields_ok(spec_semver_fields(s)) {
            r matches Ok(v) && {
                &&& v.wf()
                &&& v.path@ == path
                &&& v.config matches Config::SemVer(cfg) && {
                    &&& sem_config_of_fields(spec_semver_fields(s), cfg)
                    &&& v.prefix@ == cfg.format.prefix@
                    &&& v.version_type == (VersionType::SemVer {
                        major: cfg.version.major,
                        minor: cfg.version.minor,
                        patch: cfg.version.patch,
                        candidate: cfg.version.candidate,
                    })
                    &&& (v.timestamp is Some <==> cfg.format.timestamp is Some)
                }
            }
        } else {
            r matches Err(e) && e is TomlError
        }
    } else {
        if cal_fields_ok(spec_calver_fields(s)) {
            r matches Ok(v) && {
                &&& v.wf()
                &&& v.path@ == path
                &&& v.config matches Config::CalVer(cv) && {
                    &&& cal_config_of_fields(spec_calver_fields(s), cv)
                    &&& cv.mirrored()
                    &&& v.prefix@ == cv.format.prefix@
                    &&& v.version_type == (VersionType::CalVer { revision: cv.conflict.revision })
                    &&& v.timestamp is None
                }
            }
        } else {
            r matches Err(e) && e is TomlError
        }
    }
}

/// What `Version::updated_document_text` owes for every text: text that
/// does not parse is a parse error; text missing the active scheme's
/// `format` or `version` table is a configuration error; otherwise the
/// write succeeds and the produced text is well-formed TOML carrying the
/// record's prefix and live state under the scheme's keys.
pub open spec fn save_rel(v: Version, s: Seq<char>, r: Result<String, BumpError>) -> bool {
    match v.config {
        Config::SemVer(_) => {
            if !toml_parses(s) {
                r matches Err(e) && e is ParseError
            } else if !(toml_table(s, seq!["semver"@, "format"@]) && toml_table(
                s,
                seq!["semver"@, "version"@],
            )) {
                r matches Err(e) && e is TomlError
            } else {
                r matches Ok(t) && {
                    &&& toml_parses(t@)
                    &&& (toml_scalar(t@, spath("semver"@, "format"@, "prefix"@)) matches FieldVal::Text(x)
                        && x@ == v.prefix@)
                    &&& v.version_type matches VersionType::SemVer { major, minor, patch, candidate }
                        && {
                        &&& (toml_scalar(t@, spath("semver"@, "version"@, "major"@)) matches FieldVal::Num(n)
                            && n == major)
                        &&& (toml_scalar(t@, spath("semver"@, "version"@, "minor"@)) matches FieldVal::Num(n)
                            && n == minor)
                        &&& (toml_scalar(t@, spath("semver"@, "version"@, "patch"@)) matches FieldVal::Num(n)
                            && n == patch)
                        &&& (toml_scalar(t@, spath("semver"@, "version"@, "candidate"@)) matches FieldVal::Num(n)
                            && n == candidate)
                    }
                }
            }
        },
        Config::CalVer(cv) => {
            if !toml_parses(s) {
                r matches Err(e) && e is ParseError
            } else if !(toml_table(s, seq!["calver"@, "format"@]) && toml_table(
                s,
                seq!["calver"@, "version"@],
            )) {
                r matches Err(e) && e is TomlError
            } else {
                r matches Ok(t) && {
                    &&& toml_parses(t@)
                    &&& (toml_scalar(t@, spath("calver"@, "format"@, "prefix"@)) matches FieldVal::Text(x)
                        && x@ == v.prefix@)
                    &&& (toml_scalar(t@, spath("calver"@, "version"@, "year"@)) matches FieldVal::Text(x)
                        && x@ == cv.version.year@)
                    &&& (cv.version.month matches Some(m) ==> (toml_scalar(
                        t@,
                        spath("calver"@, "version"@, "month"@),
                    ) matches FieldVal::Text(x) && x@ == m@))
                    &&& (cv.version.day matches Some(d) ==> (toml_scalar(
                        t@,
                        spath("calver"@, "version"@, "day"@),
                    ) matches FieldVal::Text(x) && x@ == d@))
                    &&& (toml_table(s, seq!["calver"@, "conflict"@]) ==> (v.version_type matches VersionType::CalVer { revision }
                        && toml_scalar(t@, spath("calver"@, "conflict"@, "revision"@)) matches FieldVal::Num(n)
                        && n == revision))
                }
            }
        },
    }
}

/// The text of a field known to hold one.
fn text_of(f: &FieldVal) -> (r: String)
    requires
        *f is Text,
    ensures
        r@ == f->Text_0@,
{
    match f {
        FieldVal::Text(s) => s.clone(),
        _ => {
            proof {
                assert(false);
            }
            String::new()
        },
    }
}

/// Stores a text field where its table exists, and hands the text back
/// unchanged where it does not; either way the result still parses and
/// every other entry is untouched.
fn write_optional_str(s: String, sect: &str, sub: &str, key: &str, f: &FieldVal) -> (t: String)
    requires
        toml_parses(s@),
        *f is Text,
    ensures
        toml_parses(t@),
        forall|p: Seq<Seq<char>>|
            p != spath(sect@, sub@, key@) ==> #[trigger] toml_scalar(t@, p) == toml_scalar(s@, p),
        forall|p: Seq<Seq<char>>|
            p != spath(sect@, sub@, key@) ==> #[trigger] toml_table(t@, p) == toml_table(s@, p),
        toml_table(s@, seq![sect@, sub@]) ==> (toml_scalar(
            t@,
            spath(sect@, sub@, key@),
        ) matches FieldVal::Text(x) && x@ == f->Text_0@),
{
    match write_scalar_str(s.as_str(), sect, sub, key, text_of(f).as_str()) {
        Some(t) => t,
        None => s,
    }
}

/// Stores a numeric field where its table exists, as `write_optional_str`
/// does for text.
fn write_optional_num(s: String, sect: &str, sub: &str, key: &str, f: &FieldVal) -> (t: String)
    requires
        toml_parses(s@),
        *f is Num,
    ensures
        toml_parses(t@),
        forall|p: Seq<Seq<char>>|
            p != spath(sect@, sub@, key@) ==> #[trigger] toml_scalar(t@, p) == toml_scalar(s@, p),
        forall|p: Seq<Seq<char>>|
            p != spath(sect@, sub@, key@) ==> #[trigger] toml_table(t@, p) == toml_table(s@, p),
        toml_table(s@, seq![sect@, sub@]) ==> (toml_scalar(
            t@,
            spath(sect@, sub@, key@),
        ) matches FieldVal::Num(n) && n == f->Num_0),
{
    let v = match f {
        FieldVal::Num(n) => *n,
        _ => {
            proof {
                assert(false);
            }
            0
        },
    };
    match write_scalar_int(s.as_str(), sect, sub, key, v) {
        Some(t) => t,
        None => s,
    }
}

impl Version {
    /// Reads a record out of configuration text. Exactly one of the two
    /// scheme sections must be declared: both give the ambiguity error,
    /// neither the absence error, each a logic error of its own; TOML
    /// syntax faults and ill-shaped fields are configuration errors; and
    /// a well-formed document with one scheme section and clean fields
    /// always loads. A semantic-versioning record with a timestamp format
    /// gets a fresh timestamp; a calendar record never carries one.
    pub fn from_toml_str(content: &str, path: &str) -> (r: Result<Version, BumpError>)
        ensures
            load_rel(content@, path@, r),
    {
        if let Some(m) = parse_error_text(content) {
            return Err(BumpError::TomlError(m));
        }
        let has_semver = root_present(content, "semver");
        let has_calver = root_present(content, "calver");
        if has_semver && has_calver {
            return Err(
                BumpError::LogicError(
                    String::from_str(
                        "configuration declares both [semver] and [calver]; the sections are mutually exclusive",
                    ),
                ),
            );
        }
        if !has_semver && !has_calver {
            return Err(
                BumpError::LogicError(
                    String::from_str("configuration declares neither a [semver] nor a [calver] section"),
                ),
            );
        }
        if has_semver {
            let cfg = semver_config_from_fields(&semver_fields_from_doc(content))?;
            let timestamp = match &cfg.format.timestamp {
                Some(f) => Some(now_formatted(f.as_str())),
                None => None,
            };
            Ok(
                Version {
                    prefix: cfg.format.prefix.clone(),
                    timestamp,
                    version_type: VersionType::SemVer {
                        major: cfg.version.major,
                        minor: cfg.version.minor,
                        patch: cfg.version.patch,
                        candidate: cfg.version.candidate,
                    },
                    path: String::from_str(path),
                    config: Config::SemVer(cfg),
                },
            )
        } else {
            let cv = calver_config_from_fields(&calver_fields_from_doc(content))?;
            Ok(
                Version {
                    prefix: cv.format.prefix.clone(),
                    timestamp: None,
                    version_type: VersionType::CalVer { revision: cv.conflict.revision },
                    path: String::from_str(path),
                    config: Config::CalVer(cv),
                },
            )
        }
    }

    /// Writes the record's fields into existing configuration text,
    /// leaving comments, layout and unrelated entries as they were. The
    /// values written are the record's persisted fields — the same layout
    /// the round-trip laws are proved about — except the format strings,
    /// which belong to the document's author and are never touched. The
    /// text must parse and must still hold the active scheme's `format`
    /// and `version` tables — then the write always succeeds; the
    /// optional `candidate`, `development` and `conflict` tables are
    /// updated only where present.
    #[verifier::rlimit(100)]
    pub fn updated_document_text(&self, original: &str) -> (r: Result<String, BumpError>)
        requires
            self.wf(),
        ensures
            save_rel(*self, original@, r),
    {
        // The write chain below carries each stored scalar past the later
        // writes; telling the key literals apart needs their lengths and,
        // for the three same-length counters, one character each.
        proof {
            reveal_strlit("semver");
            reveal_strlit("calver");
            reveal_strlit("format");
            reveal_strlit("version");
            reveal_strlit("candidate");
            reveal_strlit("development");
            reveal_strlit("conflict");
            reveal_strlit("prefix");
            reveal_strlit("major");
            reveal_strlit("minor");
            reveal_strlit("patch");
            reveal_strlit("promotion");
            reveal_strlit("delimiter");
            reveal_strlit("year");
            reveal_strlit("month");
            reveal_strlit("day");
            reveal_strlit("revision");
            assert("format"@.len() == 6);
            assert("version"@.len() == 7);
            assert("candidate"@.len() == 9);
            assert("development"@.len() == 11);
            assert("conflict"@.len() == 8);
            assert("prefix"@.len() == 6);
            assert("major"@.len() == 5);
            assert("minor"@.len() == 5);
            assert("patch"@.len() == 5);
            assert("promotion"@.len() == 9);
            assert("delimiter"@.len() == 9);
            assert("year"@.len() == 4);
            assert("month"@.len() == 5);
            assert("day"@.len() == 3);
            assert("revision"@.len() == 8);
            assert("major"@[0] == 'm' && "major"@[1] == 'a');
            assert("minor"@[1] == 'i');
            assert("patch"@[0] == 'p');
            assert("major"@ != "minor"@);
            assert("major"@ != "patch"@);
            assert("minor"@ != "patch"@);
        }
        if let Some(m) = parse_error_text(original) {
            let mut msg = String::from_str("Failed to parse TOML document: ");
            msg.append(m.as_str());
            return Err(BumpError::ParseError(msg));
        }
        match &self.config {
            Config::SemVer(_) => {
                let f = semver_fields_of(self);
                let t1 = match write_scalar_str(
                    original,
                    "semver",
                    "format",
                    "prefix",
                    text_of(&f.prefix).as_str(),
                ) {
                    Some(t) => t,
                    None => {
                        return Err(missing_tables_error("semver"));
                    },
                };
                proof {
                    assert(spath("semver"@, "format"@, "prefix"@).len() == 3);
                    assert(toml_table(t1@, seq!["semver"@, "version"@]) == toml_table(
                        original@,
                        seq!["semver"@, "version"@],
                    ));
                }
                let t2 = match write_scalar_int(
                    t1.as_str(),
                    "semver",
                    "version",
                    "major",
                    num_of_field(&f.major),
                ) {
                    Some(t) => t,
                    None => {
                        return Err(missing_tables_error("semver"));
                    },
                };
                proof {
                    assert(spath("semver"@, "version"@, "major"@).len() == 3);
                    lemma_spath_ne(spath("semver"@, "format"@, "prefix"@), spath("semver"@, "version"@, "major"@));
                    assert(toml_table(t2@, seq!["semver"@, "version"@]) == toml_table(
                        original@,
                        seq!["semver"@, "version"@],
                    ));
                    assert(toml_scalar(t2@, spath("semver"@, "format"@, "prefix"@))
                        == toml_scalar(t1@, spath("semver"@, "format"@, "prefix"@)));
                }
                let t3 = match write_scalar_int(
                    t2.as_str(),
                    "semver",
                    "version",
                    "minor",
                    num_of_field(&f.minor),
                ) {
                    Some(t) => t,
                    None => {
                        return Err(missing_tables_error("semver"));
                    },
                };
                proof {
                    assert(spath("semver"@, "version"@, "minor"@).len() == 3);
                    lemma_spath_ne(spath("semver"@, "format"@, "prefix"@), spath("semver"@, "version"@, "minor"@));
                    lemma_spath_ne(spath("semver"@, "version"@, "major"@), spath("semver"@, "version"@, "minor"@));
                    assert(toml_table(t3@, seq!["semver"@, "version"@]) == toml_table(
                        original@,
                        seq!["semver"@, "version"@],
                    ));
                    assert(toml_scalar(t3@, spath("semver"@, "format"@, "prefix"@))
                        == toml_scalar(t2@, spath("semver"@, "format"@, "prefix"@)));
                    assert(toml_scalar(t3@, spath("semver"@, "version"@, "major"@))
                        == toml_scalar(t2@, spath("semver"@, "version"@, "major"@)));
                }
                let t4 = match write_scalar_int(
                    t3.as_str(),
                    "semver",
                    "version",
                    "patch",
                    num_of_field(&f.patch),
                ) {
                    Some(t) => t,
                    None => {
                        return Err(missing_tables_error("semver"));
                    },
                };
                proof {
                    assert(spath("semver"@, "version"@, "patch"@).len() == 3);
                    lemma_spath_ne(spath("semver"@, "format"@, "prefix"@), spath("semver"@, "version"@, "patch"@));
                    lemma_spath_ne(spath("semver"@, "version"@, "major"@), spath("semver"@, "version"@, "patch"@));
                    lemma_spath_ne(spath("semver"@, "version"@, "minor"@), spath("semver"@, "version"@, "patch"@));
                    assert(toml_table(t4@, seq!["semver"@, "version"@]) == toml_table(
                        original@,
                        seq!["semver"@, "version"@],
                    ));
                    assert(toml_scalar(t4@, spath("semver"@, "format"@, "prefix"@))
                        == toml_scalar(t3@, spath("semver"@, "format"@, "prefix"@)));
                    assert(toml_scalar(t4@, spath("semver"@, "version"@, "major"@))
                        == toml_scalar(t3@, spath("semver"@, "version"@, "major"@)));
                    assert(toml_scalar(t4@, spath("semver"@, "version"@, "minor"@))
                        == toml_scalar(t3@, spath("semver"@, "version"@, "minor"@)));
                }
                let t5 = match write_scalar_int(
                    t4.as_str(),
                    "semver",
                    "version",
                    "candidate",
                    num_of_field(&f.candidate),
                ) {
                    Some(t) => t,
                    None => {
                        return Err(missing_tables_error("semver"));
                    },
                };
                proof {
                    assert(spath("semver"@, "version"@, "candidate"@).len() == 3);
                    lemma_spath_ne(spath("semver"@, "format"@, "prefix"@), spath("semver"@, "version"@, "candidate"@));
                    lemma_spath_ne(spath("semver"@, "version"@, "major"@), spath("semver"@, "version"@, "candidate"@));
                    lemma_spath_ne(spath("semver"@, "version"@, "minor"@), spath("semver"@, "version"@, "candidate"@));
                    lemma_spath_ne(spath("semver"@, "version"@, "patch"@), spath("semver"@, "version"@, "candidate"@));
                    assert(toml_scalar(t5@, spath("semver"@, "format"@, "prefix"@))
                        == toml_scalar(t4@, spath("semver"@, "format"@, "prefix"@)));
                    assert(toml_scalar(t5@, spath("semver"@, "version"@, "major"@))
                        == toml_scalar(t4@, spath("semver"@, "version"@, "major"@)));
                    assert(toml_scalar(t5@, spath("semver"@, "version"@, "minor"@))
                        == toml_scalar(t4@, spath("semver"@, "version"@, "minor"@)));
                    assert(toml_scalar(t5@, spath("semver"@, "version"@, "patch"@))
                        == toml_scalar(t4@, spath("semver"@, "version"@, "patch"@)));
                }
                let t6 = write_optional_str(t5, "semver", "candidate", "promotion", &f.cand_promotion);
                proof {
                    assert(spath("semver"@, "candidate"@, "promotion"@).len() == 3);
                    lemma_spath_ne(spath("semver"@, "format"@, "prefix"@), spath("semver"@, "candidate"@, "promotion"@));
                    lemma_spath_ne(spath("semver"@, "version"@, "major"@), spath("semver"@, "candidate"@, "promotion"@));
                    lemma_spath_ne(spath("semver"@, "version"@, "minor"@), spath("semver"@, "candidate"@, "promotion"@));
                    lemma_spath_ne(spath("semver"@, "version"@, "patch"@), spath("semver"@, "candidate"@, "promotion"@));
                    lemma_spath_ne(spath("semver"@, "version"@, "candidate"@), spath("semver"@, "candidate"@, "promotion"@));
                    assert(toml_scalar(t6@, spath("semver"@, "format"@, "prefix"@))
                        == toml_scalar(t5@, spath("semver"@, "format"@, "prefix"@)));
                    assert(toml_scalar(t6@, spath("semver"@, "version"@, "major"@))
                        == toml_scalar(t5@, spath("semver"@, "version"@, "major"@)));
                    assert(toml_scalar(t6@, spath("semver"@, "version"@, "minor"@))
                        == toml_scalar(t5@, spath("semver"@, "version"@, "minor"@)));
                    assert(toml_scalar(t6@, spath("semver"@, "version"@, "patch"@))
                        == toml_scalar(t5@, spath("semver"@, "version"@, "patch"@)));
                    assert(toml_scalar(t6@, spath("semver"@, "version"@, "candidate"@))
                        == toml_scalar(t5@, spath("semver"@, "version"@, "candidate"@)));
                }
                let t7 = write_optional_str(t6, "semver", "candidate", "delimiter", &f.cand_delimiter);
                proof {
                    assert(spath("semver"@, "candidate"@, "delimiter"@).len() == 3);
                    lemma_spath_ne(spath("semver"@, "format"@, "prefix"@), spath("semver"@, "candidate"@, "delimiter"@));
                    lemma_spath_ne(spath("semver"@, "version"@, "major"@), spath("semver"@, "candidate"@, "delimiter"@));
                    lemma_spath_ne(spath("semver"@, "version"@, "minor"@), spath("semver"@, "candidate"@, "delimiter"@));
                    lemma_spath_ne(spath("semver"@, "version"@, "patch"@), spath("semver"@, "candidate"@, "delimiter"@));
                    lemma_spath_ne(spath("semver"@, "version"@, "candidate"@), spath("semver"@, "candidate"@, "delimiter"@));
                    assert(toml_scalar(t7@, spath("semver"@, "format"@, "prefix"@))
                        == toml_scalar(t6@, spath("semver"@, "format"@, "prefix"@)));
                    assert(toml_scalar(t7@, spath("semver"@, "version"@, "major"@))
                        == toml_scalar(t6@, spath("semver"@, "version"@, "major"@)));
                    assert(toml_scalar(t7@, spath("semver"@, "version"@, "minor"@))
                        == toml_scalar(t6@, spath("semver"@, "version"@, "minor"@)));
                    assert(toml_scalar(t7@, spath("semver"@, "version"@, "patch"@))
                        == toml_scalar(t6@, spath("semver"@, "version"@, "patch"@)));
                    assert(toml_scalar(t7@, spath("semver"@, "version"@, "candidate"@))
                        == toml_scalar(t6@, spath("semver"@, "version"@, "candidate"@)));
                }
                let t8 = write_optional_str(t7, "semver", "development", "promotion", &f.dev_promotion);
                proof {
                    assert(spath("semver"@, "development"@, "promotion"@).len() == 3);
                    lemma_spath_ne(spath("semver"@, "format"@, "prefix"@), spath("semver"@, "development"@, "promotion"@));
                    lemma_spath_ne(spath("semver"@, "version"@, "major"@), spath("semver"@, "development"@, "promotion"@));
                    lemma_spath_ne(spath("semver"@, "version"@, "minor"@), spath("semver"@, "development"@, "promotion"@));
                    lemma_spath_ne(spath("semver"@, "version"@, "patch"@), spath("semver"@, "development"@, "promotion"@));
                    lemma_spath_ne(spath("semver"@, "version"@, "candidate"@), spath("semver"@, "development"@, "promotion"@));
                    assert(toml_scalar(t8@, spath("semver"@, "format"@, "prefix"@))
                        == toml_scalar(t7@, spath("semver"@, "format"@, "prefix"@)));
                    assert(toml_scalar(t8@, spath("semver"@, "version"@, "major"@))
                        == toml_scalar(t7@, spath("semver"@, "version"@, "major"@)));
                    assert(toml_scalar(t8@, spath("semver"@, "version"@, "minor"@))
                        == toml_scalar(t7@, spath("semver"@, "version"@, "minor"@)));
                    assert(toml_scalar(t8@, spath("semver"@, "version"@, "patch"@))
                        == toml_scalar(t7@, spath("semver"@, "version"@, "patch"@)));
                    assert(toml_scalar(t8@, spath("semver"@, "version"@, "candidate"@))
                        == toml_scalar(t7@, spath("semver"@, "version"@, "candidate"@)));
                }
                let t9 = write_optional_str(t8, "semver", "development", "delimiter", &f.dev_delimiter);
                proof {
                    assert(spath("semver"@, "development"@, "delimiter"@).len() == 3);
                    lemma_spath_ne(spath("semver"@, "format"@, "prefix"@), spath("semver"@, "development"@, "delimiter"@));
                    lemma_spath_ne(spath("semver"@, "version"@, "major"@), spath("semver"@, "development"@, "delimiter"@));
                    lemma_spath_ne(spath("semver"@, "version"@, "minor"@), spath("semver"@, "development"@, "delimiter"@));
                    lemma_spath_ne(spath("semver"@, "version"@, "patch"@), spath("semver"@, "development"@, "delimiter"@));
                    lemma_spath_ne(spath("semver"@, "version"@, "candidate"@), spath("semver"@, "development"@, "delimiter"@));
                    assert(toml_scalar(t9@, spath("semver"@, "format"@, "prefix"@))
                        == toml_scalar(t8@, spath("semver"@, "format"@, "prefix"@)));
                    assert(toml_scalar(t9@, spath("semver"@, "version"@, "major"@))
                        == toml_scalar(t8@, spath("semver"@, "version"@, "major"@)));
                    assert(toml_scalar(t9@, spath("semver"@, "version"@, "minor"@))
                        == toml_scalar(t8@, spath("semver"@, "version"@, "minor"@)));
                    assert(toml_scalar(t9@, spath("semver"@, "version"@, "patch"@))
                        == toml_scalar(t8@, spath("semver"@, "version"@, "patch"@)));
                    assert(toml_scalar(t9@, spath("semver"@, "version"@, "candidate"@))
                        == toml_scalar(t8@, spath("semver"@, "version"@, "candidate"@)));
                }
                Ok(t9)
            },
            Config::CalVer(_) => {
                let f = calver_fields_of(self);
                let t1 = match write_scalar_str(
                    original,
                    "calver",
                    "format",
                    "prefix",
                    text_of(&f.prefix).as_str(),
                ) {
                    Some(t) => t,
                    None => {
                        return Err(missing_tables_error("calver"));
                    },
                };
                proof {
                    assert(spath("calver"@, "format"@, "prefix"@).len() == 3);
                    assert(toml_table(t1@, seq!["calver"@, "version"@]) == toml_table(
                        original@,
                        seq!["calver"@, "version"@],
                    ));
                    assert(toml_table(t1@, seq!["calver"@, "conflict"@]) == toml_table(
                        original@,
                        seq!["calver"@, "conflict"@],
                    ));
                }
                let t2 = match write_scalar_str(
                    t1.as_str(),
                    "calver",
                    "version",
                    "year",
                    text_of(&f.year).as_str(),
                ) {
                    Some(t) => t,
                    None => {
                        return Err(missing_tables_error("calver"));
                    },
                };
                proof {
                    assert(spath("calver"@, "version"@, "year"@).len() == 3);
                    lemma_spath_ne(spath("calver"@, "format"@, "prefix"@), spath("calver"@, "version"@, "year"@));
                    assert(toml_table(t2@, seq!["calver"@, "version"@]) == toml_table(
                        original@,
                        seq!["calver"@, "version"@],
                    ));
                    assert(toml_table(t2@, seq!["calver"@, "conflict"@]) == toml_table(
                        original@,
                        seq!["calver"@, "conflict"@],
                    ));
                    assert(toml_scalar(t2@, spath("calver"@, "format"@, "prefix"@))
                        == toml_scalar(t1@, spath("calver"@, "format"@, "prefix"@)));
                }
                let t3 = match &f.month {
                    FieldVal::Text(_) => write_optional_str(t2, "calver", "version", "month", &f.month),
                    _ => t2,
                };
                proof {
                    assert(spath("calver"@, "version"@, "month"@).len() == 3);
                    lemma_spath_ne(spath("calver"@, "format"@, "prefix"@), spath("calver"@, "version"@, "month"@));
                    lemma_spath_ne(spath("calver"@, "version"@, "year"@), spath("calver"@, "version"@, "month"@));
                    assert(toml_table(t3@, seq!["calver"@, "version"@]) == toml_table(
                        original@,
                        seq!["calver"@, "version"@],
                    ));
                    assert(toml_table(t3@, seq!["calver"@, "conflict"@]) == toml_table(
                        original@,
                        seq!["calver"@, "conflict"@],
                    ));
                    assert(toml_scalar(t3@, spath("calver"@, "format"@, "prefix"@))
                        == toml_scalar(t2@, spath("calver"@, "format"@, "prefix"@)));
                    assert(toml_scalar(t3@, spath("calver"@, "version"@, "year"@))
                        == toml_scalar(t2@, spath("calver"@, "version"@, "year"@)));
                    assert(f.month is Text ==> (toml_scalar(
                        t3@,
                        spath("calver"@, "version"@, "month"@),
                    ) matches FieldVal::Text(x) && x@ == f.month->Text_0@));
                }
                let t4 = match &f.day {
                    FieldVal::Text(_) => write_optional_str(t3, "calver", "version", "day", &f.day),
                    _ => t3,
                };
                proof {
                    assert(spath("calver"@, "version"@, "day"@).len() == 3);
                    lemma_spath_ne(spath("calver"@, "format"@, "prefix"@), spath("calver"@, "version"@, "day"@));
                    lemma_spath_ne(spath("calver"@, "version"@, "year"@), spath("calver"@, "version"@, "day"@));
                    lemma_spath_ne(spath("calver"@, "version"@, "month"@), spath("calver"@, "version"@, "day"@));
                    assert(toml_table(t4@, seq!["calver"@, "conflict"@]) == toml_table(
                        original@,
                        seq!["calver"@, "conflict"@],
                    ));
                    assert(toml_scalar(t4@, spath("calver"@, "format"@, "prefix"@))
                        == toml_scalar(t3@, spath("calver"@, "format"@, "prefix"@)));
                    assert(toml_scalar(t4@, spath("calver"@, "version"@, "year"@))
                        == toml_scalar(t3@, spath("calver"@, "version"@, "year"@)));
                    assert(toml_scalar(t4@, spath("calver"@, "version"@, "month"@))
                        == toml_scalar(t3@, spath("calver"@, "version"@, "month"@)));
                    assert(f.day is Text ==> (toml_scalar(
                        t4@,
                        spath("calver"@, "version"@, "day"@),
                    ) matches FieldVal::Text(x) && x@ == f.day->Text_0@));
                }
                let t5 = write_optional_num(t4, "calver", "conflict", "revision", &f.revision);
                proof {
                    assert(spath("calver"@, "conflict"@, "revision"@).len() == 3);
                    lemma_spath_ne(spath("calver"@, "format"@, "prefix"@), spath("calver"@, "conflict"@, "revision"@));
                    lemma_spath_ne(spath("calver"@, "version"@, "year"@), spath("calver"@, "conflict"@, "revision"@));
                    lemma_spath_ne(spath("calver"@, "version"@, "month"@), spath("calver"@, "conflict"@, "revision"@));
                    lemma_spath_ne(spath("calver"@, "version"@, "day"@), spath("calver"@, "conflict"@, "revision"@));
                    assert(toml_scalar(t5@, spath("calver"@, "format"@, "prefix"@))
                        == toml_scalar(t4@, spath("calver"@, "format"@, "prefix"@)));
                    assert(toml_scalar(t5@, spath("calver"@, "version"@, "year"@))
                        == toml_scalar(t4@, spath("calver"@, "version"@, "year"@)));
                    assert(toml_scalar(t5@, spath("calver"@, "version"@, "month"@))
                        == toml_scalar(t4@, spath("calver"@, "version"@, "month"@)));
                    assert(toml_scalar(t5@, spath("calver"@, "version"@, "day"@))
                        == toml_scalar(t4@, spath("calver"@, "version"@, "day"@)));
                    assert(toml_table(original@, seq!["calver"@, "conflict"@]) ==> (toml_scalar(
                        t5@,
                        spath("calver"@, "conflict"@, "revision"@),
                    ) matches FieldVal::Num(n) && n == f.revision->Num_0));
                }
                let t6 = write_optional_str(
                    t5,
                    "calver",
                    "conflict",
                    "delimiter",
                    &f.conflict_delimiter,
                );
                proof {
                    assert(spath("calver"@, "conflict"@, "delimiter"@).len() == 3);
                    lemma_spath_ne(spath("calver"@, "format"@, "prefix"@), spath("calver"@, "conflict"@, "delimiter"@));
                    lemma_spath_ne(spath("calver"@, "version"@, "year"@), spath("calver"@, "conflict"@, "delimiter"@));
                    lemma_spath_ne(spath("calver"@, "version"@, "month"@), spath("calver"@, "conflict"@, "delimiter"@));
                    lemma_spath_ne(spath("calver"@, "version"@, "day"@), spath("calver"@, "conflict"@, "delimiter"@));
                    lemma_spath_ne(spath("calver"@, "conflict"@, "revision"@), spath("calver"@, "conflict"@, "delimiter"@));
                    assert(toml_scalar(t6@, spath("calver"@, "format"@, "prefix"@))
                        == toml_scalar(t5@, spath("calver"@, "format"@, "prefix"@)));
                    assert(toml_scalar(t6@, spath("calver"@, "version"@, "year"@))
                        == toml_scalar(t5@, spath("calver"@, "version"@, "year"@)));
                    assert(toml_scalar(t6@, spath("calver"@, "version"@, "month"@))
                        == toml_scalar(t5@, spath("calver"@, "version"@, "month"@)));
                    assert(toml_scalar(t6@, spath("calver"@, "version"@, "day"@))
                        == toml_scalar(t5@, spath("calver"@, "version"@, "day"@)));
                    assert(toml_scalar(t6@, spath("calver"@, "conflict"@, "revision"@))
                        == toml_scalar(t5@, spath("calver"@, "conflict"@, "revision"@)));
                }
                Ok(t6)
            },
        }
    }
}

/// The number of a field known to hold one.
fn num_of_field(f: &FieldVal) -> (r: i64)
    requires
        *f is Num,
    ensures
        r == f->Num_0,
{
    match f {
        FieldVal::Num(n) => *n,
        _ => {
            proof {
                assert(false);
            }
            0
        },
    }
}

/// The error for a document that lost the scheme's required tables.
fn missing_tables_error(scheme: &str) -> (e: BumpError)
    ensures
        e is TomlError,
{
    let mut m = String::from_str("document lacks the [");
    m.append(scheme);
    m.append(".format] or [");
    m.append(scheme);
    m.append(".version] table");
    BumpError::TomlError(m)
}

} // verus!
