//! The persisted fields as plain values. Reading a document yields one
//! scalar per known key; building a configuration from them, and laying a
//! record back out into them, are pure and fully specified — the round
//! trip through a document is proved here, with only the document layer
//! itself delegated.

use vstd::prelude::*;

use crate::bump::BumpError;
use crate::config::{
    CalVerConfig, CalVerConflictSection, CalVerFormatSection, CalVerVersionSection,
    CandidateSection, Config, DevelopmentSection, SemVerConfig, SemVerFormatSection,
    SemVerVersionSection,
};
use crate::version::{Version, VersionType};

verus! {

/// One scalar read from a document: absent, a string, an integer, or
/// something of any other shape.
#[derive(Debug)]
pub enum FieldVal {
    Missing,
    Text(String),
    Num(i64),
    Other,
}

/// The field may be used as an optional string: present text or absent.
pub open spec fn text_ok(f: FieldVal) -> bool {
    f is Missing || f is Text
}

/// The field's text, or the default where it is absent.
pub open spec fn text_or(f: FieldVal, dflt: Seq<char>) -> Seq<char> {
    match f {
        FieldVal::Text(s) => s@,
        _ => dflt,
    }
}

/// The field holds an integer a `u32` can carry.
pub open spec fn num_ok(f: FieldVal) -> bool {
    f matches FieldVal::Num(n) && 0 <= n <= u32::MAX
}

/// The field's number.
pub open spec fn num_of(f: FieldVal) -> int {
    match f {
        FieldVal::Num(n) => n as int,
        _ => 0,
    }
}

/// The optional string holds exactly the field's text: present text maps
/// to a present string, an absent field to an absent one.
pub open spec fn opt_text_matches(f: FieldVal, o: Option<String>) -> bool {
    match (f, o) {
        (FieldVal::Text(s), Some(t)) => t@ == s@,
        (FieldVal::Missing, None) => true,
        _ => false,
    }
}

/// Every scalar a `[semver]` section persists.
#[derive(Debug)]
pub struct SemVerFields {
    pub prefix: FieldVal,
    pub delimiter: FieldVal,
    pub timestamp: FieldVal,
    pub major: FieldVal,
    pub minor: FieldVal,
    pub patch: FieldVal,
    pub candidate: FieldVal,
    pub cand_promotion: FieldVal,
    pub cand_delimiter: FieldVal,
    pub dev_promotion: FieldVal,
    pub dev_delimiter: FieldVal,
}

/// Every scalar a `[calver]` section persists.
#[derive(Debug)]
pub struct CalVerFields {
    pub prefix: FieldVal,
    pub delimiter: FieldVal,
    pub year_fmt: FieldVal,
    pub month_fmt: FieldVal,
    pub day_fmt: FieldVal,
    pub year: FieldVal,
    pub month: FieldVal,
    pub day: FieldVal,
    pub revision: FieldVal,
    pub conflict_delimiter: FieldVal,
}

/// The semantic-versioning fields read back cleanly: the four counters are
/// integers in range, everything else is text or absent.
pub open spec fn sem_fields_ok(f: SemVerFields) -> bool {
    &&& text_ok(f.prefix)
    &&& text_ok(f.delimiter)
    &&& text_ok(f.timestamp)
    &&& num_ok(f.major)
    &&& num_ok(f.minor)
    &&& num_ok(f.patch)
    &&& num_ok(f.candidate)
    &&& text_ok(f.cand_promotion)
    &&& text_ok(f.cand_delimiter)
    &&& text_ok(f.dev_promotion)
    &&& text_ok(f.dev_delimiter)
}

/// The configuration a clean set of semantic-versioning fields denotes,
/// with the documented default for each absent text.
pub open spec fn sem_config_of_fields(f: SemVerFields, c: SemVerConfig) -> bool {
    &&& c.format.prefix@ == text_or(f.prefix, "v"@)
    &&& c.format.delimiter@ == text_or(f.delimiter, "."@)
    &&& opt_text_matches(f.timestamp, c.format.timestamp)
    &&& c.version.major as int == num_of(f.major)
    &&& c.version.minor as int == num_of(f.minor)
    &&& c.version.patch as int == num_of(f.patch)
    &&& c.version.candidate as int == num_of(f.candidate)
    &&& c.candidate.promotion@ == text_or(f.cand_promotion, "minor"@)
    &&& c.candidate.delimiter@ == text_or(f.cand_delimiter, "-rc"@)
    &&& c.development.promotion@ == text_or(f.dev_promotion, "git_sha"@)
    &&& c.development.delimiter@ == text_or(f.dev_delimiter, "+"@)
}

/// The calendar fields read back cleanly: the year format and the stored
/// year are present text, the conflict counter is an integer in range,
/// everything else is text or absent.
pub open spec fn cal_fields_ok(f: CalVerFields) -> bool {
    &&& text_ok(f.prefix)
    &&& text_ok(f.delimiter)
    &&& f.year_fmt is Text
    &&& text_ok(f.month_fmt)
    &&& text_ok(f.day_fmt)
    &&& f.year is Text
    &&& text_ok(f.month)
    &&& text_ok(f.day)
    &&& num_ok(f.revision)
    &&& text_ok(f.conflict_delimiter)
}

/// The configuration a clean set of calendar fields denotes. The stored
/// date is normalized against the declared format: a declared component is
/// stored (empty when the document lacked it) and an undeclared one is
/// dropped, so the result always mirrors its format.
pub open spec fn cal_config_of_fields(f: CalVerFields, c: CalVerConfig) -> bool {
    &&& c.format.prefix@ == text_or(f.prefix, ""@)
    &&& c.format.delimiter@ == text_or(f.delimiter, "."@)
    &&& c.format.year@ == text_or(f.year_fmt, ""@)
    &&& opt_text_matches(f.month_fmt, c.format.month)
    &&& opt_text_matches(f.day_fmt, c.format.day)
    &&& c.version.year@ == text_or(f.year, ""@)
    &&& (f.month_fmt is Text ==> (c.version.month matches Some(m) && m@ == text_or(
        f.month,
        ""@,
    )))
    &&& (f.month_fmt is Missing ==> c.version.month is None)
    &&& (f.day_fmt is Text ==> (c.version.day matches Some(d) && d@ == text_or(f.day, ""@)))
    &&& (f.day_fmt is Missing ==> c.version.day is None)
    &&& c.conflict.revision as int == num_of(f.revision)
    &&& c.conflict.delimiter@ == text_or(f.conflict_delimiter, "-"@)
}

/// The fields that saving a semantic-versioning record lays out: the live
/// prefix and counters, and the configuration's remaining text.
pub open spec fn sem_fields_of_rel(v: Version, f: SemVerFields) -> bool {
    match (v.version_type, v.config) {
        (
            VersionType::SemVer { major, minor, patch, candidate },
            Config::SemVer(cfg),
        ) => {
            &&& f.prefix matches FieldVal::Text(s) && s@ == v.prefix@
            &&& f.delimiter matches FieldVal::Text(s) && s@ == cfg.format.delimiter@
            &&& opt_text_matches(f.timestamp, cfg.format.timestamp)
            &&& f.major matches FieldVal::Num(n) && n == major as i64
            &&& f.minor matches FieldVal::Num(n) && n == minor as i64
            &&& f.patch matches FieldVal::Num(n) && n == patch as i64
            &&& f.candidate matches FieldVal::Num(n) && n == candidate as i64
            &&& f.cand_promotion matches FieldVal::Text(s) && s@ == cfg.candidate.promotion@
            &&& f.cand_delimiter matches FieldVal::Text(s) && s@ == cfg.candidate.delimiter@
            &&& f.dev_promotion matches FieldVal::Text(s) && s@ == cfg.development.promotion@
            &&& f.dev_delimiter matches FieldVal::Text(s) && s@ == cfg.development.delimiter@
        },
        _ => false,
    }
}

/// The fields that saving a calendar record lays out.
pub open spec fn cal_fields_of_rel(v: Version, f: CalVerFields) -> bool {
    match (v.version_type, v.config) {
        (VersionType::CalVer { revision }, Config::CalVer(cv)) => {
            &&& f.prefix matches FieldVal::Text(s) && s@ == v.prefix@
            &&& f.delimiter matches FieldVal::Text(s) && s@ == cv.format.delimiter@
            &&& f.year_fmt matches FieldVal::Text(s) && s@ == cv.format.year@
            &&& opt_text_matches(f.month_fmt, cv.format.month)
            &&& opt_text_matches(f.day_fmt, cv.format.day)
            &&& f.year matches FieldVal::Text(s) && s@ == cv.version.year@
            &&& opt_text_matches(f.month, cv.version.month)
            &&& opt_text_matches(f.day, cv.version.day)
            &&& f.revision matches FieldVal::Num(n) && n == revision as i64
            &&& f.conflict_delimiter matches FieldVal::Text(s) && s@ == cv.conflict.delimiter@
        },
        _ => false,
    }
}

/// Reads the field as text with a default; anything else is a
/// configuration error naming the key.
fn take_text(f: &FieldVal, dflt: &str, key: &str) -> (r: Result<String, BumpError>)
    ensures
        r is Ok <==> text_ok(*f),
        r matches Ok(s) ==> s@ == text_or(*f, dflt@),
        r matches Err(e) ==> e is TomlError,
{
    match f {
        FieldVal::Text(s) => Ok(s.clone()),
        FieldVal::Missing => Ok(String::from_str(dflt)),
        _ => Err(type_error(key, "a string")),
    }
}

/// Reads the field as optional text.
fn take_opt_text(f: &FieldVal, key: &str) -> (r: Result<Option<String>, BumpError>)
    ensures
        r is Ok <==> text_ok(*f),
        r matches Ok(o) ==> opt_text_matches(*f, o),
        r matches Err(e) ==> e is TomlError,
{
    match f {
        FieldVal::Text(s) => Ok(Some(s.clone())),
        FieldVal::Missing => Ok(None),
        _ => Err(type_error(key, "a string")),
    }
}

/// Reads the field as required text.
fn take_required_text(f: &FieldVal, key: &str) -> (r: Result<String, BumpError>)
    ensures
        r is Ok <==> f is Text,
        r matches Ok(s) ==> s@ == text_or(*f, ""@),
        r matches Err(e) ==> e is TomlError,
{
    match f {
        FieldVal::Text(s) => Ok(s.clone()),
        FieldVal::Missing => Err(missing_error(key)),
        _ => Err(type_error(key, "a string")),
    }
}

/// Reads the field as a counter: an integer that fits a `u32`.
fn take_num(f: &FieldVal, key: &str) -> (r: Result<u32, BumpError>)
    ensures
        r is Ok <==> num_ok(*f),
        r matches Ok(n) ==> n as int == num_of(*f),
        r matches Err(e) ==> e is TomlError,
{
    match f {
        FieldVal::Num(n) => {
            if 0 <= *n && *n <= u32::MAX as i64 {
                Ok(*n as u32)
            } else {
                Err(type_error(key, "a non-negative integer that fits 32 bits"))
            }
        },
        FieldVal::Missing => Err(missing_error(key)),
        _ => Err(type_error(key, "an integer")),
    }
}

/// A configuration error for a field of the wrong shape.
fn type_error(key: &str, wanted: &str) -> (e: BumpError)
    ensures
        e is TomlError,
{
    let mut m = String::from_str("expected ");
    m.append(wanted);
    m.append(" for ");
    m.append(key);
    BumpError::TomlError(m)
}

/// A configuration error for an absent required field.
fn missing_error(key: &str) -> (e: BumpError)
    ensures
        e is TomlError,
{
    let mut m = String::from_str("missing field ");
    m.append(key);
    BumpError::TomlError(m)
}

/// Builds the semantic-versioning configuration the fields denote, or the
/// configuration error for the first field of the wrong shape. Succeeds
/// exactly on clean fields.
pub fn semver_config_from_fields(f: &SemVerFields) -> (r: Result<SemVerConfig, BumpError>)
    ensures
        r is Ok <==> sem_fields_ok(*f),
        r matches Ok(c) ==> sem_config_of_fields(*f, c),
        r matches Err(e) ==> e is TomlError,
{
    let prefix = take_text(&f.prefix, "v", "semver.format.prefix")?;
    let delimiter = take_text(&f.delimiter, ".", "semver.format.delimiter")?;
    let timestamp = take_opt_text(&f.timestamp, "semver.format.timestamp")?;
    let major = take_num(&f.major, "semver.version.major")?;
    let minor = take_num(&f.minor, "semver.version.minor")?;
    let patch = take_num(&f.patch, "semver.version.patch")?;
    let candidate = take_num(&f.candidate, "semver.version.candidate")?;
    let cand_promotion = take_text(&f.cand_promotion, "minor", "semver.candidate.promotion")?;
    let cand_delimiter = take_text(&f.cand_delimiter, "-rc", "semver.candidate.delimiter")?;
    let dev_promotion = take_text(&f.dev_promotion, "git_sha", "semver.development.promotion")?;
    let dev_delimiter = take_text(&f.dev_delimiter, "+", "semver.development.delimiter")?;
    Ok(
        SemVerConfig {
            format: SemVerFormatSection { prefix, delimiter, timestamp },
            version: SemVerVersionSection { major, minor, patch, candidate },
            candidate: CandidateSection { promotion: cand_promotion, delimiter: cand_delimiter },
            development: DevelopmentSection { promotion: dev_promotion, delimiter: dev_delimiter },
        },
    )
}

/// Builds the calendar configuration the fields denote, normalizing the
/// stored date to mirror the declared format. Succeeds exactly on clean
/// fields.
pub fn calver_config_from_fields(f: &CalVerFields) -> (r: Result<CalVerConfig, BumpError>)
    ensures
        r is Ok <==> cal_fields_ok(*f),
        r matches Ok(c) ==> cal_config_of_fields(*f, c) && c.mirrored(),
        r matches Err(e) ==> e is TomlError,
{
    proof {
        reveal_strlit("");
    }
    let prefix = take_text(&f.prefix, "", "calver.format.prefix")?;
    let delimiter = take_text(&f.delimiter, ".", "calver.format.delimiter")?;
    let year_fmt = take_required_text(&f.year_fmt, "calver.format.year")?;
    let month_fmt = take_opt_text(&f.month_fmt, "calver.format.month")?;
    let day_fmt = take_opt_text(&f.day_fmt, "calver.format.day")?;
    let year = take_required_text(&f.year, "calver.version.year")?;
    let month = take_opt_text(&f.month, "calver.version.month")?;
    let day = take_opt_text(&f.day, "calver.version.day")?;
    let revision = take_num(&f.revision, "calver.conflict.revision")?;
    let conflict_delimiter = take_text(&f.conflict_delimiter, "-", "calver.conflict.delimiter")?;
    let month_stored = if month_fmt.is_some() {
        match month {
            Some(m) => Some(m),
            None => Some(String::new()),
        }
    } else {
        None
    };
    let day_stored = if day_fmt.is_some() {
        match day {
            Some(d) => Some(d),
            None => Some(String::new()),
        }
    } else {
        None
    };
    let c = CalVerConfig {
        format: CalVerFormatSection {
            prefix,
            delimiter,
            year: year_fmt,
            month: month_fmt,
            day: day_fmt,
        },
        version: CalVerVersionSection { year, month: month_stored, day: day_stored },
        conflict: CalVerConflictSection {
            revision,
            delimiter: conflict_delimiter,
        },
    };
    proof {
        assert(f.month_fmt is Text ==> (c.version.month matches Some(m) && m@ == text_or(
            f.month,
            ""@,
        )));
        assert(f.day_fmt is Text ==> (c.version.day matches Some(d) && d@ == text_or(
            f.day,
            ""@,
        )));
        assert(cal_config_of_fields(*f, c));
    }
    Ok(c)
}

/// Lays a semantic-versioning record out into its persisted fields.
pub fn semver_fields_of(v: &Version) -> (f: SemVerFields)
    requires
        v.wf(),
        v.config is SemVer,
    ensures
        sem_fields_of_rel(*v, f),
{
    match (&v.version_type, &v.config) {
        (VersionType::SemVer { major, minor, patch, candidate }, Config::SemVer(cfg)) => {
            SemVerFields {
                prefix: FieldVal::Text(v.prefix.clone()),
                delimiter: FieldVal::Text(cfg.format.delimiter.clone()),
                timestamp: match &cfg.format.timestamp {
                    Some(t) => FieldVal::Text(t.clone()),
                    None => FieldVal::Missing,
                },
                major: FieldVal::Num(*major as i64),
                minor: FieldVal::Num(*minor as i64),
                patch: FieldVal::Num(*patch as i64),
                candidate: FieldVal::Num(*candidate as i64),
                cand_promotion: FieldVal::Text(cfg.candidate.promotion.clone()),
                cand_delimiter: FieldVal::Text(cfg.candidate.delimiter.clone()),
                dev_promotion: FieldVal::Text(cfg.development.promotion.clone()),
                dev_delimiter: FieldVal::Text(cfg.development.delimiter.clone()),
            }
        },
        _ => {
            proof {
                assert(false);
            }
            SemVerFields {
                prefix: FieldVal::Missing,
                delimiter: FieldVal::Missing,
                timestamp: FieldVal::Missing,
                major: FieldVal::Missing,
                minor: FieldVal::Missing,
                patch: FieldVal::Missing,
                candidate: FieldVal::Missing,
                cand_promotion: FieldVal::Missing,
                cand_delimiter: FieldVal::Missing,
                dev_promotion: FieldVal::Missing,
                dev_delimiter: FieldVal::Missing,
            }
        },
    }
}

/// Lays a calendar record out into its persisted fields.
pub fn calver_fields_of(v: &Version) -> (f: CalVerFields)
    requires
        v.wf(),
        v.config is CalVer,
    ensures
        cal_fields_of_rel(*v, f),
{
    match (&v.version_type, &v.config) {
        (VersionType::CalVer { revision }, Config::CalVer(cv)) => {
            CalVerFields {
                prefix: FieldVal::Text(v.prefix.clone()),
                delimiter: FieldVal::Text(cv.format.delimiter.clone()),
                year_fmt: FieldVal::Text(cv.format.year.clone()),
                month_fmt: match &cv.format.month {
                    Some(m) => FieldVal::Text(m.clone()),
                    None => FieldVal::Missing,
                },
                day_fmt: match &cv.format.day {
                    Some(d) => FieldVal::Text(d.clone()),
                    None => FieldVal::Missing,
                },
                year: FieldVal::Text(cv.version.year.clone()),
                month: match &cv.version.month {
                    Some(m) => FieldVal::Text(m.clone()),
                    None => FieldVal::Missing,
                },
                day: match &cv.version.day {
                    Some(d) => FieldVal::Text(d.clone()),
                    None => FieldVal::Missing,
                },
                revision: FieldVal::Num(*revision as i64),
                conflict_delimiter: FieldVal::Text(cv.conflict.delimiter.clone()),
            }
        },
        _ => {
            proof {
                assert(false);
            }
            CalVerFields {
                prefix: FieldVal::Missing,
                delimiter: FieldVal::Missing,
                year_fmt: FieldVal::Missing,
                month_fmt: FieldVal::Missing,
                day_fmt: FieldVal::Missing,
                year: FieldVal::Missing,
                month: FieldVal::Missing,
                day: FieldVal::Missing,
                revision: FieldVal::Missing,
                conflict_delimiter: FieldVal::Missing,
            }
        },
    }
}

/// The fields a saved semantic-versioning record lays out always read back
/// cleanly: saving never produces a document this library refuses.
pub proof fn lemma_semver_fields_readable(v: Version, f: SemVerFields)
    requires
        v.wf(),
        v.version_type is SemVer,
        sem_fields_of_rel(v, f),
    ensures
        sem_fields_ok(f),
{
}

/// Round trip for a semantic-versioning record: laying it out into fields
/// and reading a configuration back yields the same prefix, the same
/// numeric quadruple, and the same format, promotion and delimiter text.
pub proof fn lemma_semver_round_trip(v: Version, f: SemVerFields, c: SemVerConfig)
    requires
        v.wf(),
        v.version_type is SemVer,
        sem_fields_of_rel(v, f),
        sem_config_of_fields(f, c),
    ensures
        c.format.prefix@ == v.prefix@,
        v.version_type matches VersionType::SemVer { major, minor, patch, candidate } && {
            &&& c.version.major == major
            &&& c.version.minor == minor
            &&& c.version.patch == patch
            &&& c.version.candidate == candidate
        },
        v.config matches Config::SemVer(cfg) && {
            &&& c.format.delimiter@ == cfg.format.delimiter@
            &&& (match (c.format.timestamp, cfg.format.timestamp) {
                (Some(a), Some(b)) => a@ == b@,
                (None, None) => true,
                _ => false,
            })
            &&& c.candidate.promotion@ == cfg.candidate.promotion@
            &&& c.candidate.delimiter@ == cfg.candidate.delimiter@
            &&& c.development.promotion@ == cfg.development.promotion@
            &&& c.development.delimiter@ == cfg.development.delimiter@
        },
{
}

/// The fields a saved calendar record lays out always read back cleanly.
pub proof fn lemma_calver_fields_readable(v: Version, f: CalVerFields)
    requires
        v.wf(),
        v.version_type is CalVer,
        cal_fields_of_rel(v, f),
    ensures
        cal_fields_ok(f),
{
}

/// Round trip for a calendar record whose stored date mirrors its format:
/// laying it out into fields and reading a configuration back yields the
/// same prefix, date state, conflict counter and format text.
pub proof fn lemma_calver_round_trip(v: Version, f: CalVerFields, c: CalVerConfig)
    requires
        v.wf(),
        v.version_type is CalVer,
        v.config matches Config::CalVer(cv) && cv.mirrored(),
        cal_fields_of_rel(v, f),
        cal_config_of_fields(f, c),
    ensures
        c.format.prefix@ == v.prefix@,
        v.version_type matches VersionType::CalVer { revision } && c.conflict.revision == revision,
        v.config matches Config::CalVer(cv) && {
            &&& c.format.year@ == cv.format.year@
            &&& c.version.year@ == cv.version.year@
            &&& crate::version::opt_view_eq(c.format.month, cv.format.month)
            &&& crate::version::opt_view_eq(c.format.day, cv.format.day)
            &&& crate::version::opt_view_eq(c.version.month, cv.version.month)
            &&& crate::version::opt_view_eq(c.version.day, cv.version.day)
            &&& c.conflict.delimiter@ == cv.conflict.delimiter@
        },
{
}

} // verus!
