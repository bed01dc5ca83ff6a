//! Bump requests, the error taxonomy shared by the whole crate, and the
//! record-derived strings handed to source control.

use vstd::prelude::*;

use crate::config::Config;
use crate::version::{render, Version, VersionType};

verus! {

/// Which numeric component a point release advances.
#[derive(Debug)]
pub enum PointType {
    Major,
    Minor,
    Patch,
}

/// A requested transition on a version record.
///
/// `Base` is a display-only pseudo-kind: it never mutates a record and only
/// selects the bare `major.minor.patch` rendering.
#[derive(Debug)]
pub enum BumpType {
    Prefix(String),
    Point(PointType),
    Candidate,
    Release,
    Calendar,
    Base,
}

/// The typed errors this crate returns; none of its verified functions panic.
#[derive(Debug)]
pub enum BumpError {
    IoError(String),
    ParseError(String),
    TomlError(String),
    LogicError(String),
    Git(String),
}

/// The one-line message each error renders to.
pub open spec fn display_text(e: BumpError) -> Seq<char> {
    match e {
        BumpError::IoError(m) => "bump error: I/O >> "@ + m@,
        BumpError::ParseError(m) => "bump error: parse >> "@ + m@,
        BumpError::TomlError(m) => "bump error: config >> "@ + m@,
        BumpError::LogicError(m) => "bump error >> "@ + m@,
        BumpError::Git(m) => "bump error: git >> "@ + m@,
    }
}

impl BumpError {
    /// Renders the error as the one-line message shown to a user.
    pub fn to_display_string(&self) -> (s: String)
        ensures
            s@ == display_text(*self),
    {
        let (head, m) = match self {
            BumpError::IoError(m) => ("bump error: I/O >> ", m),
            BumpError::ParseError(m) => ("bump error: parse >> ", m),
            BumpError::TomlError(m) => ("bump error: config >> ", m),
            BumpError::LogicError(m) => ("bump error >> ", m),
            BumpError::Git(m) => ("bump error: git >> ", m),
        };
        let mut s = String::from_str(head);
        s.append(m.as_str());
        s
    }
}

/// Wraps a read failure: a missing file is reported as such, around the
/// text given (the path, for a missing file); any other failure keeps its
/// own message.
pub fn io_error(not_found: bool, msg: String) -> (e: BumpError)
    ensures
        e matches BumpError::IoError(m) && m@ == (if not_found {
            "file not found '"@ + msg@ + "'"@
        } else {
            msg@
        }),
{
    if not_found {
        let mut m = String::from_str("file not found '");
        m.append(msg.as_str());
        m.append("'");
        BumpError::IoError(m)
    } else {
        BumpError::IoError(msg)
    }
}

/// Which source-control facts the development suffix needs.
#[derive(Debug)]
pub enum DevPolicy {
    GitSha,
    Branch,
    Full,
}

/// The policy a promotion string selects; anything unrecognized falls back
/// to the commit id.
pub open spec fn dev_policy_text(promotion: Seq<char>) -> DevPolicy {
    if promotion == "branch"@ {
        DevPolicy::Branch
    } else if promotion == "full"@ {
        DevPolicy::Full
    } else {
        DevPolicy::GitSha
    }
}

/// Reads the development promotion policy of a record; callers use it to
/// decide which source-control queries to make before asking for the
/// suffix itself. A calendar record has no policy.
pub fn dev_policy(version: &Version) -> (r: Option<DevPolicy>)
    ensures
        match version.config {
            Config::SemVer(cfg) => r matches Some(p) && p == dev_policy_text(
                cfg.development.promotion@,
            ),
            Config::CalVer(_) => r is None,
        },
{
    match &version.config {
        Config::SemVer(cfg) => {
            if crate::strutil::string_is(&cfg.development.promotion, "branch") {
                Some(DevPolicy::Branch)
            } else if crate::strutil::string_is(&cfg.development.promotion, "full") {
                Some(DevPolicy::Full)
            } else {
                Some(DevPolicy::GitSha)
            }
        },
        Config::CalVer(_) => None,
    }
}

/// The suffix a development build carries, given the record's policy and
/// the commit id and branch name source control reported.
pub open spec fn dev_suffix_text(promotion: Seq<char>, sha: Seq<char>, branch: Seq<char>) -> Seq<
    char,
> {
    match dev_policy_text(promotion) {
        DevPolicy::Branch => branch,
        DevPolicy::Full => branch + "_"@ + sha,
        DevPolicy::GitSha => sha,
    }
}

/// Selects the development suffix for the record: the commit id, the
/// branch name, or `{branch}_{sha}`, per the configured policy, with an
/// unrecognized policy falling back to the commit id. Calendar records do
/// not carry development suffixes and are refused.
pub fn get_development_suffix(version: &Version, sha: &str, branch: &str) -> (r: Result<
    String,
    BumpError,
>)
    ensures
        match version.config {
            Config::SemVer(cfg) => r matches Ok(s) && s@ == dev_suffix_text(
                cfg.development.promotion@,
                sha@,
                branch@,
            ),
            Config::CalVer(_) => r matches Err(e) && e matches BumpError::LogicError(m) && m@
                == "CalVer does not support development suffixes"@,
        },
{
    match &version.config {
        Config::SemVer(cfg) => {
            if crate::strutil::string_is(&cfg.development.promotion, "branch") {
                Ok(String::from_str(branch))
            } else if crate::strutil::string_is(&cfg.development.promotion, "full") {
                let mut s = String::from_str(branch);
                s.append("_");
                s.append(sha);
                Ok(s)
            } else {
                Ok(String::from_str(sha))
            }
        },
        Config::CalVer(_) => Err(
            BumpError::LogicError(
                String::from_str("CalVer does not support development suffixes"),
            ),
        ),
    }
}

/// The name a tag for this record carries: the candidate rendering while a
/// candidate line is open, the plain rendering otherwise, and the full
/// calendar rendering for a calendar record.
pub open spec fn tag_text(v: Version) -> Seq<char> {
    match v.version_type {
        VersionType::SemVer { candidate, .. } => {
            if candidate > 0 {
                render(v, BumpType::Candidate)
            } else {
                render(v, BumpType::Release)
            }
        },
        VersionType::CalVer { .. } => render(v, BumpType::Calendar),
    }
}

/// Builds the literal tag name for the record, from its stored state
/// alone.
pub fn build_tag_name(version: &Version) -> (r: Result<String, BumpError>)
    requires
        version.wf(),
    ensures
        r matches Ok(s) && s@ == tag_text(*version),
{
    match &version.version_type {
        VersionType::SemVer { candidate, .. } => {
            if *candidate > 0 {
                Ok(version.to_string(&BumpType::Candidate))
            } else {
                Ok(version.to_string(&BumpType::Release))
            }
        },
        VersionType::CalVer { .. } => Ok(version.to_string(&BumpType::Calendar)),
    }
}

} // verus!
