//! The configuration model: the persisted settings and current state of the
//! two versioning schemes, plus their documented defaults.

use vstd::prelude::*;

use crate::strutil::string_is;

verus! {

/// The `[semver.format]` section: tag prefix, component delimiter and an
/// optional strftime-like pattern for a build timestamp.
#[derive(Debug)]
pub struct SemVerFormatSection {
    pub prefix: String,
    pub delimiter: String,
    pub timestamp: Option<String>,
}

/// The `[semver.version]` section: the current numeric state.
/// `candidate == 0` means the record is not a release candidate.
#[derive(Debug)]
pub struct SemVerVersionSection {
    pub major: u32,
    pub minor: u32,
    pub patch: u32,
    pub candidate: u32,
}

/// The `[semver.candidate]` section: which component advances when a new
/// candidate line begins (`"major"`, `"minor"` or `"patch"`), and the
/// delimiter put before the candidate number when rendering.
#[derive(Debug)]
pub struct CandidateSection {
    pub promotion: String,
    pub delimiter: String,
}

/// The `[semver.development]` section: which build metadata a development
/// build carries (`"git_sha"`, `"branch"` or `"full"`), and the delimiter
/// put before it.
#[derive(Debug)]
pub struct DevelopmentSection {
    pub promotion: String,
    pub delimiter: String,
}

/// Everything the file stores for a semantic-versioning record.
#[derive(Debug)]
pub struct SemVerConfig {
    pub format: SemVerFormatSection,
    pub version: SemVerVersionSection,
    pub candidate: CandidateSection,
    pub development: DevelopmentSection,
}

/// The `[calver.format]` section. `year` is mandatory; a calendar version
/// shows exactly the components whose format strings are present here.
#[derive(Debug)]
pub struct CalVerFormatSection {
    pub prefix: String,
    pub delimiter: String,
    pub year: String,
    pub month: Option<String>,
    pub day: Option<String>,
}

/// The `[calver.version]` section: the date components as already-formatted
/// text. They mirror the components the format section declares.
#[derive(Debug)]
pub struct CalVerVersionSection {
    pub year: String,
    pub month: Option<String>,
    pub day: Option<String>,
}

/// The `[calver.conflict]` section: the same-day collision counter and the
/// delimiter put before it when it is shown.
#[derive(Debug)]
pub struct CalVerConflictSection {
    pub revision: u32,
    pub delimiter: String,
}

/// Everything the file stores for a calendar-versioning record.
#[derive(Debug)]
pub struct CalVerConfig {
    pub format: CalVerFormatSection,
    pub version: CalVerVersionSection,
    pub conflict: CalVerConflictSection,
}

/// The configuration of exactly one scheme; a record never carries both.
#[derive(Debug)]
pub enum Config {
    SemVer(SemVerConfig),
    CalVer(CalVerConfig),
}

impl CalVerConfig {
    /// The stored date components mirror the declared format components.
    pub open spec fn mirrored(self) -> bool {
        &&& self.version.month is Some <==> self.format.month is Some
        &&& self.version.day is Some <==> self.format.day is Some
    }
}

impl Config {
    pub open spec fn is_semver(self) -> bool {
        self is SemVer
    }

    pub open spec fn is_calver(self) -> bool {
        self is CalVer
    }
}

/// A candidate promotion policy this library recognizes.
pub open spec fn valid_candidate_promotion(s: Seq<char>) -> bool {
    s == "minor"@ || s == "major"@ || s == "patch"@
}

/// A development suffix policy this library recognizes.
pub open spec fn valid_development_promotion(s: Seq<char>) -> bool {
    s == "git_sha"@ || s == "branch"@ || s == "full"@
}

/// The informational lines a loaded configuration earns: two per
/// unrecognized policy string, naming it and the default that stands in.
pub open spec fn notices_text(c: Config) -> Seq<Seq<char>> {
    match c {
        Config::SemVer(s) => (if !valid_development_promotion(s.development.promotion@) {
            seq![
                "invalid development promotion strategy: "@ + s.development.promotion@,
                "defaulting to git_sha"@,
            ]
        } else {
            Seq::<Seq<char>>::empty()
        }) + (if !valid_candidate_promotion(s.candidate.promotion@) {
            seq![
                "invalid candidate promotion strategy: "@ + s.candidate.promotion@,
                "defaulting to minor"@,
            ]
        } else {
            Seq::<Seq<char>>::empty()
        }),
        Config::CalVer(_) => Seq::<Seq<char>>::empty(),
    }
}

/// Collects the informational lines an unrecognized policy string earns.
/// The strings stay in the configuration as loaded; the bump machine
/// falls back to the documented default when it reads them.
pub fn config_notices(config: &Config) -> (r: Vec<String>)
    ensures
        r.deep_view() == notices_text(*config),
{
    let mut r: Vec<String> = Vec::new();
    match config {
        Config::SemVer(s) => {
            let dev_ok = string_is(&s.development.promotion, "git_sha") || string_is(
                &s.development.promotion,
                "branch",
            ) || string_is(&s.development.promotion, "full");
            if !dev_ok {
                let mut line = String::from_str("invalid development promotion strategy: ");
                line.append(s.development.promotion.as_str());
                r.push(line);
                r.push(String::from_str("defaulting to git_sha"));
            }
            let cand_ok = string_is(&s.candidate.promotion, "minor") || string_is(
                &s.candidate.promotion,
                "major",
            ) || string_is(&s.candidate.promotion, "patch");
            if !cand_ok {
                let mut line = String::from_str("invalid candidate promotion strategy: ");
                line.append(s.candidate.promotion.as_str());
                r.push(line);
                r.push(String::from_str("defaulting to minor"));
            }
        },
        Config::CalVer(_) => {},
    }
    proof {
        assert(r.deep_view() =~~= notices_text(*config));
    }
    r
}

/// What the documented semantic-versioning defaults say of a configuration:
/// dotted components, the stock build-timestamp pattern, promotion `minor`
/// with delimiter `-rc`, development suffix `git_sha` with delimiter `+`.
pub open spec fn semver_defaults(
    s: SemVerConfig,
    prefix: Seq<char>,
    major: u32,
    minor: u32,
    patch: u32,
    candidate: u32,
) -> bool {
    &&& s.format.prefix@ == prefix
    &&& s.format.delimiter@ == "."@
    &&& s.format.timestamp matches Some(t) && t@ == "%Y-%m-%d %H:%M:%S %Z"@
    &&& s.version.major == major
    &&& s.version.minor == minor
    &&& s.version.patch == patch
    &&& s.version.candidate == candidate
    &&& s.candidate.promotion@ == "minor"@
    &&& s.candidate.delimiter@ == "-rc"@
    &&& s.development.promotion@ == "git_sha"@
    &&& s.development.delimiter@ == "+"@
}

/// The documented semantic-versioning defaults, around the given prefix
/// and numeric state.
pub fn default_semver_config(
    prefix: String,
    major: u32,
    minor: u32,
    patch: u32,
    candidate: u32,
) -> (c: Config)
    ensures
        c matches Config::SemVer(s) && semver_defaults(s, prefix@, major, minor, patch, candidate),
{
    Config::SemVer(SemVerConfig {
        format: SemVerFormatSection {
            prefix,
            delimiter: String::from_str("."),
            timestamp: Some(String::from_str("%Y-%m-%d %H:%M:%S %Z")),
        },
        version: SemVerVersionSection { major, minor, patch, candidate },
        candidate: CandidateSection {
            promotion: String::from_str("minor"),
            delimiter: String::from_str("-rc"),
        },
        development: DevelopmentSection {
            promotion: String::from_str("git_sha"),
            delimiter: String::from_str("+"),
        },
    })
}

/// The calendar-versioning defaults: a bare prefix, dotted date components
/// formatted `%Y`/`%m`/`%d`, an empty stored date, and a conflict counter at
/// zero with delimiter `-`. The prefix argument names the tag prefix the
/// caller asked for; calendar records always start with a bare one.
pub fn default_calver_config(_prefix: String) -> (c: Config)
    ensures
        c matches Config::CalVer(cv) && {
            &&& cv.format.prefix@ == ""@
            &&& cv.format.delimiter@ == "."@
            &&& cv.format.year@ == "%Y"@
            &&& cv.format.month matches Some(m) && m@ == "%m"@
            &&& cv.format.day matches Some(d) && d@ == "%d"@
            &&& cv.version.year@ == ""@
            &&& cv.version.month matches Some(m) && m@ == ""@
            &&& cv.version.day matches Some(d) && d@ == ""@
            &&& cv.conflict.revision == 0
            &&& cv.conflict.delimiter@ == "-"@
            &&& cv.mirrored()
        },
{
    proof {
        reveal_strlit("");
    }
    Config::CalVer(CalVerConfig {
        format: CalVerFormatSection {
            prefix: String::new(),
            delimiter: String::from_str("."),
            year: String::from_str("%Y"),
            month: Some(String::from_str("%m")),
            day: Some(String::from_str("%d")),
        },
        version: CalVerVersionSection {
            year: String::new(),
            month: Some(String::new()),
            day: Some(String::new()),
        },
        conflict: CalVerConflictSection {
            revision: 0,
            delimiter: String::from_str("-"),
        },
    })
}

} // verus!
