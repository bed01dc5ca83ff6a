//! The version record: one scheme's current state together with its
//! configuration, the bump state machine that advances it, and the
//! renderers that turn it into text.

use vstd::prelude::*;

use crate::bump::{BumpError, BumpType, PointType};
use crate::clock::now_formatted;
use crate::config::{CalVerConfig, CalVerVersionSection, Config, SemVerConfig, semver_defaults};
use crate::config::default_semver_config;
use crate::strutil::{dec_digits, string_is, u32_to_string};

verus! {

/// The live numeric state of a record: either a semantic-versioning
/// quadruple or a calendar record's same-day conflict counter (its date
/// components live in the configuration as already-formatted text).
#[derive(Debug)]
pub enum VersionType {
    SemVer { major: u32, minor: u32, patch: u32, candidate: u32 },
    CalVer { revision: u32 },
}

/// A version record: the active prefix, the optional rendered build
/// timestamp, the live state, the location of the backing file, and the
/// loaded configuration.
#[derive(Debug)]
pub struct Version {
    pub prefix: String,
    pub timestamp: Option<String>,
    pub version_type: VersionType,
    pub path: String,
    pub config: Config,
}

/// The two `Option<String>` values hold equal text, or are both absent.
pub open spec fn opt_view_eq(a: Option<String>, b: Option<String>) -> bool {
    match (a, b) {
        (Some(x), Some(y)) => x@ == y@,
        (None, None) => true,
        _ => false,
    }
}

/// `major.minor.patch` with literal dots.
pub open spec fn sem_triple(major: u32, minor: u32, patch: u32) -> Seq<char> {
    dec_digits(major as int) + "."@ + dec_digits(minor as int) + "."@ + dec_digits(
        patch as int,
    )
}

/// The date part of a calendar rendering: the stored year, then each
/// further component that is both declared and stored, joined by the
/// format delimiter.
pub open spec fn cal_date(cv: CalVerConfig) -> Seq<char> {
    cv.version.year@ + (match (cv.format.month, cv.version.month) {
        (Some(_), Some(m)) => cv.format.delimiter@ + m@,
        _ => Seq::<char>::empty(),
    }) + (match (cv.format.day, cv.version.day) {
        (Some(_), Some(d)) => cv.format.delimiter@ + d@,
        _ => Seq::<char>::empty(),
    })
}

/// A full calendar rendering: prefix, date, and the conflict counter only
/// when it is positive.
pub open spec fn cal_display(prefix: Seq<char>, cv: CalVerConfig, revision: u32) -> Seq<char> {
    prefix + cal_date(cv) + (if revision > 0 {
        cv.conflict.delimiter@ + dec_digits(revision as int)
    } else {
        Seq::<char>::empty()
    })
}

/// What `Version::to_string` returns for each bump kind.
pub open spec fn render(v: Version, kind: BumpType) -> Seq<char> {
    match (v.version_type, v.config) {
        (VersionType::SemVer { major, minor, patch, candidate }, Config::SemVer(cfg)) => {
            match kind {
                BumpType::Candidate => v.prefix@ + sem_triple(major, minor, patch)
                    + cfg.candidate.delimiter@ + dec_digits(candidate as int),
                BumpType::Base => sem_triple(major, minor, patch),
                _ => v.prefix@ + sem_triple(major, minor, patch),
            }
        },
        (VersionType::CalVer { revision }, Config::CalVer(cv)) => {
            match kind {
                BumpType::Base => cal_display(Seq::<char>::empty(), cv, revision),
                _ => cal_display(v.prefix@, cv, revision),
            }
        },
        _ => Seq::<char>::empty(),
    }
}

/// Which component a candidate promotion advances; an unrecognized policy
/// string falls back to `minor`.
pub open spec fn promo_of(policy: Seq<char>) -> PointType {
    if policy == "major"@ {
        PointType::Major
    } else if policy == "patch"@ {
        PointType::Patch
    } else {
        PointType::Minor
    }
}

/// The state after a point release.
pub open spec fn point_next(v: VersionType, pt: PointType) -> VersionType {
    match v {
        VersionType::SemVer { major, minor, patch, candidate } => match pt {
            PointType::Major => (VersionType::SemVer {
                major: (major + 1) as u32,
                minor: 0,
                patch: 0,
                candidate: 0,
            }),
            PointType::Minor => (VersionType::SemVer {
                major,
                minor: (minor + 1) as u32,
                patch: 0,
                candidate: 0,
            }),
            PointType::Patch => (VersionType::SemVer {
                major,
                minor,
                patch: (patch + 1) as u32,
                candidate: 0,
            }),
        },
        VersionType::CalVer { .. } => v,
    }
}

/// The state after a candidate bump: inside a candidate line only the
/// counter advances; a fresh line applies the promotion policy once and
/// starts the counter at one.
pub open spec fn candidate_next(v: VersionType, policy: PointType) -> VersionType {
    match v {
        VersionType::SemVer { major, minor, patch, candidate } => {
            if candidate > 0 {
                (VersionType::SemVer { major, minor, patch, candidate: (candidate + 1) as u32 })
            } else {
                match policy {
                    PointType::Major => (VersionType::SemVer {
                        major: (major + 1) as u32,
                        minor: 0,
                        patch: 0,
                        candidate: 1,
                    }),
                    PointType::Minor => (VersionType::SemVer {
                        major,
                        minor: (minor + 1) as u32,
                        patch: 0,
                        candidate: 1,
                    }),
                    PointType::Patch => (VersionType::SemVer {
                        major,
                        minor,
                        patch: (patch + 1) as u32,
                        candidate: 1,
                    }),
                }
            }
        },
        VersionType::CalVer { .. } => v,
    }
}

/// The state after a release: the counter drops, the triple freezes.
pub open spec fn released(v: VersionType) -> VersionType {
    match v {
        VersionType::SemVer { major, minor, patch, .. } => (VersionType::SemVer {
            major,
            minor,
            patch,
            candidate: 0,
        }),
        VersionType::CalVer { .. } => v,
    }
}

/// The candidate counter of a semantic-versioning state.
pub open spec fn sem_candidate(v: VersionType) -> u32 {
    match v {
        VersionType::SemVer { candidate, .. } => candidate,
        VersionType::CalVer { .. } => 0,
    }
}

/// The stored date and today's rendering name the same period: every
/// component the format declares matches exactly.
pub open spec fn same_period(cv: CalVerConfig, today: CalVerVersionSection) -> bool {
    &&& cv.version.year@ == today.year@
    &&& (cv.format.month is Some ==> opt_view_eq(cv.version.month, today.month))
    &&& (cv.format.day is Some ==> opt_view_eq(cv.version.day, today.day))
}

/// How one calendar roll relates the state before (`cv`, `rev`) to the
/// state after (`cv2`, `rev2`), given today's rendered components: a
/// same-period roll only increments the conflict counter; a new period
/// replaces the stored components that the format declares and resets the
/// counter.
pub open spec fn cal_roll_rel(
    cv: CalVerConfig,
    rev: u32,
    today: CalVerVersionSection,
    cv2: CalVerConfig,
    rev2: u32,
) -> bool {
    &&& cv2.format == cv.format
    &&& cv2.conflict == cv.conflict
    &&& if same_period(cv, today) {
        rev2 == rev + 1 && cv2.version == cv.version
    } else {
        &&& rev2 == 0
        &&& cv2.version.year@ == today.year@
        &&& (match (cv.format.month, today.month) {
            (Some(_), Some(m)) => cv2.version.month matches Some(m2) && m2@ == m@,
            _ => cv2.version.month is None,
        })
        &&& (match (cv.format.day, today.day) {
            (Some(_), Some(d)) => cv2.version.day matches Some(d2) && d2@ == d@,
            _ => cv2.version.day is None,
        })
    }
}

/// How `calendar_bump_with` relates the record before and after.
pub open spec fn calendar_rel(pre: Version, today: CalVerVersionSection, post: Version) -> bool {
    &&& post.prefix == pre.prefix
    &&& post.path == pre.path
    &&& post.timestamp == pre.timestamp
    &&& match (pre.config, post.config, pre.version_type, post.version_type) {
        (
            Config::CalVer(cv),
            Config::CalVer(cv2),
            VersionType::CalVer { revision: r0 },
            VersionType::CalVer { revision: r1 },
        ) => cal_roll_rel(cv, r0, today, cv2, r1),
        _ => false,
    }
}

/// The record's timestamp after a semantic-versioning transition: present
/// exactly when the configuration asks for one.
pub open spec fn ts_refreshed(cfg: SemVerConfig, post: Version) -> bool {
    cfg.format.timestamp is Some <==> post.timestamp is Some
}

/// Everything but the live state and the timestamp stays as it was.
pub open spec fn sem_frame(pre: Version, post: Version) -> bool {
    &&& post.prefix == pre.prefix
    &&& post.path == pre.path
    &&& post.config == pre.config
}

/// How `Version::bump` relates the record before and after, for every bump
/// kind and both schemes; `r` is its result. The two logic errors — a bump
/// kind foreign to the active scheme, and a release without a candidate —
/// leave the record untouched.
pub open spec fn bump_rel(
    pre: Version,
    kind: BumpType,
    post: Version,
    r: Result<(), BumpError>,
) -> bool {
    match pre.config {
        Config::SemVer(cfg) => match kind {
            BumpType::Base => r is Ok && post == pre,
            BumpType::Calendar => {
                &&& r matches Err(BumpError::LogicError(m)) && m@
                    == "SemVer only supports --prefix, --major, --minor, --patch, --candidate and --release bumps"@
                &&& post == pre
            },
            BumpType::Prefix(p) => {
                &&& r is Ok
                &&& post.prefix@ == p@
                &&& post.version_type == pre.version_type
                &&& post.path == pre.path
                &&& post.config == pre.config
                &&& ts_refreshed(cfg, post)
            },
            BumpType::Point(pt) => {
                &&& r is Ok
                &&& post.version_type == point_next(pre.version_type, pt)
                &&& sem_frame(pre, post)
                &&& ts_refreshed(cfg, post)
            },
            BumpType::Candidate => {
                &&& r is Ok
                &&& post.version_type == candidate_next(
                    pre.version_type,
                    promo_of(cfg.candidate.promotion@),
                )
                &&& sem_frame(pre, post)
                &&& ts_refreshed(cfg, post)
            },
            BumpType::Release => {
                if sem_candidate(pre.version_type) == 0 {
                    &&& r matches Err(BumpError::LogicError(m)) && m@
                        == "Cannot release without a candidate"@
                    &&& post == pre
                } else {
                    &&& r is Ok
                    &&& post.version_type == released(pre.version_type)
                    &&& sem_frame(pre, post)
                    &&& ts_refreshed(cfg, post)
                }
            },
        },
        Config::CalVer(cv) => match kind {
            BumpType::Base => r is Ok && post == pre,
            BumpType::Calendar => {
                &&& r is Ok
                &&& post.prefix == pre.prefix
                &&& post.path == pre.path
                &&& post.timestamp == pre.timestamp
                &&& match (post.config, pre.version_type, post.version_type) {
                    (
                        Config::CalVer(cv2),
                        VersionType::CalVer { revision: r0 },
                        VersionType::CalVer { revision: r1 },
                    ) => {
                        &&& cv2.format == cv.format
                        &&& cv2.conflict == cv.conflict
                        &&& (r1 == r0 + 1 && cv2.version == cv.version || r1 == 0)
                        &&& (cv.mirrored() ==> cv2.mirrored())
                    },
                    _ => false,
                }
            },
            _ => {
                &&& r matches Err(BumpError::LogicError(m)) && m@
                    == "CalVer only supports --calendar bumps"@
                &&& post == pre
            },
        },
    }
}

impl Version {
    /// The scheme of the live state and the scheme of the configuration
    /// always agree.
    pub open spec fn wf(self) -> bool {
        match (self.version_type, self.config) {
            (VersionType::SemVer { .. }, Config::SemVer(_)) => true,
            (VersionType::CalVer { .. }, Config::CalVer(_)) => true,
            _ => false,
        }
    }

    /// The bump's arithmetic stays inside `u32`: whichever counter the
    /// transition advances is not already at the maximum.
    pub open spec fn bump_fits(self, kind: BumpType) -> bool {
        match (self.version_type, kind) {
            (VersionType::SemVer { major, .. }, BumpType::Point(PointType::Major)) => major
                < u32::MAX,
            (VersionType::SemVer { minor, .. }, BumpType::Point(PointType::Minor)) => minor
                < u32::MAX,
            (VersionType::SemVer { patch, .. }, BumpType::Point(PointType::Patch)) => patch
                < u32::MAX,
            (
                VersionType::SemVer { major, minor, patch, candidate },
                BumpType::Candidate,
            ) => {
                if candidate > 0 {
                    candidate < u32::MAX
                } else {
                    match self.config {
                        Config::SemVer(cfg) => match promo_of(cfg.candidate.promotion@) {
                            PointType::Major => major < u32::MAX,
                            PointType::Minor => minor < u32::MAX,
                            PointType::Patch => patch < u32::MAX,
                        },
                        Config::CalVer(_) => true,
                    }
                }
            },
            (VersionType::CalVer { revision }, BumpType::Calendar) => revision < u32::MAX,
            _ => true,
        }
    }

    /// The hard-coded starting record when no file exists yet: `0.1.0`
    /// with prefix `v` and the documented defaults.
    pub fn default(path: &str) -> (v: Version)
        ensures
            v.wf(),
            v.prefix@ == "v"@,
            v.timestamp is None,
            v.version_type == (VersionType::SemVer { major: 0, minor: 1, patch: 0, candidate: 0 }),
            v.path@ == path@,
            v.config matches Config::SemVer(s) && semver_defaults(s, "v"@, 0, 1, 0, 0),
    {
        let config = default_semver_config(String::from_str("v"), 0, 1, 0, 0);
        Version {
            prefix: String::from_str("v"),
            timestamp: None,
            version_type: VersionType::SemVer { major: 0, minor: 1, patch: 0, candidate: 0 },
            path: String::from_str(path),
            config,
        }
    }

    /// Renders the record for the given bump kind: candidate renderings
    /// carry the candidate counter, everything else shows the bare triple
    /// or calendar date, and `Base` drops the prefix.
    pub fn to_string(&self, bump_type: &BumpType) -> (s: String)
        requires
            self.wf(),
        ensures
            s@ == render(*self, *bump_type),
    {
        let mut s = String::new();
        match (&self.version_type, &self.config) {
            (VersionType::SemVer { major, minor, patch, candidate }, Config::SemVer(cfg)) => {
                match bump_type {
                    BumpType::Base => {},
                    _ => s.append(self.prefix.as_str()),
                }
                s.append(u32_to_string(*major).as_str());
                s.append(".");
                s.append(u32_to_string(*minor).as_str());
                s.append(".");
                s.append(u32_to_string(*patch).as_str());
                match bump_type {
                    BumpType::Candidate => {
                        s.append(cfg.candidate.delimiter.as_str());
                        s.append(u32_to_string(*candidate).as_str());
                    },
                    _ => {},
                }
            },
            (VersionType::CalVer { revision }, Config::CalVer(cv)) => {
                match bump_type {
                    BumpType::Base => {},
                    _ => s.append(self.prefix.as_str()),
                }
                s.append(cv.version.year.as_str());
                match (&cv.format.month, &cv.version.month) {
                    (Some(_), Some(m)) => {
                        s.append(cv.format.delimiter.as_str());
                        s.append(m.as_str());
                    },
                    _ => {},
                }
                match (&cv.format.day, &cv.version.day) {
                    (Some(_), Some(d)) => {
                        s.append(cv.format.delimiter.as_str());
                        s.append(d.as_str());
                    },
                    _ => {},
                }
                if *revision > 0 {
                    s.append(cv.conflict.delimiter.as_str());
                    s.append(u32_to_string(*revision).as_str());
                }
            },
            _ => {
                proof {
                    assert(false);
                }
            },
        }
        proof {
            assert(s@ =~= render(*self, *bump_type));
        }
        s
    }

    /// Applies the requested transition in place. A bump kind foreign to
    /// the active scheme, or a release without a candidate, is refused
    /// with a logic error and leaves the record exactly as it was;
    /// calendar rolls consult the clock through the configured formats.
    pub fn bump(&mut self, bump_type: &BumpType) -> (r: Result<(), BumpError>)
        requires
            old(self).wf(),
            old(self).bump_fits(*bump_type),
        ensures
            final(self).wf(),
            bump_rel(*old(self), *bump_type, *final(self), r),
    {
        match bump_type {
            BumpType::Base => Ok(()),
            BumpType::Calendar => {
                let (fmt_month, fmt_day, fmt_year) = match &self.config {
                    Config::CalVer(cv) => (
                        clone_opt(&cv.format.month),
                        clone_opt(&cv.format.day),
                        cv.format.year.clone(),
                    ),
                    Config::SemVer(_) => {
                        return Err(
                            BumpError::LogicError(
                                String::from_str(
                                    "SemVer only supports --prefix, --major, --minor, --patch, --candidate and --release bumps",
                                ),
                            ),
                        );
                    },
                };
                let today = CalVerVersionSection {
                    year: now_formatted(fmt_year.as_str()),
                    month: match &fmt_month {
                        Some(f) => Some(now_formatted(f.as_str())),
                        None => None,
                    },
                    day: match &fmt_day {
                        Some(f) => Some(now_formatted(f.as_str())),
                        None => None,
                    },
                };
                self.calendar_bump_with(&today)
            },
            _ => {
                let (ts_fmt, promotion) = match &self.config {
                    Config::SemVer(cfg) => (
                        clone_opt(&cfg.format.timestamp),
                        cfg.candidate.promotion.clone(),
                    ),
                    Config::CalVer(_) => {
                        return Err(
                            BumpError::LogicError(
                                String::from_str("CalVer only supports --calendar bumps"),
                            ),
                        );
                    },
                };
                let (major, minor, patch, candidate) = match &self.version_type {
                    VersionType::SemVer { major, minor, patch, candidate } => (
                        *major,
                        *minor,
                        *patch,
                        *candidate,
                    ),
                    VersionType::CalVer { .. } => {
                        proof {
                            assert(false);
                        }
                        (0, 0, 0, 0)
                    },
                };
                match bump_type {
                    BumpType::Prefix(p) => {
                        self.prefix = p.clone();
                    },
                    BumpType::Point(PointType::Major) => {
                        self.version_type = VersionType::SemVer {
                            major: major + 1,
                            minor: 0,
                            patch: 0,
                            candidate: 0,
                        };
                    },
                    BumpType::Point(PointType::Minor) => {
                        self.version_type = VersionType::SemVer {
                            major,
                            minor: minor + 1,
                            patch: 0,
                            candidate: 0,
                        };
                    },
                    BumpType::Point(PointType::Patch) => {
                        self.version_type = VersionType::SemVer {
                            major,
                            minor,
                            patch: patch + 1,
                            candidate: 0,
                        };
                    },
                    BumpType::Candidate => {
                        if candidate > 0 {
                            self.version_type = VersionType::SemVer {
                                major,
                                minor,
                                patch,
                                candidate: candidate + 1,
                            };
                        } else if string_is(&promotion, "major") {
                            self.version_type = VersionType::SemVer {
                                major: major + 1,
                                minor: 0,
                                patch: 0,
                                candidate: 1,
                            };
                        } else if string_is(&promotion, "patch") {
                            self.version_type = VersionType::SemVer {
                                major,
                                minor,
                                patch: patch + 1,
                                candidate: 1,
                            };
                        } else {
                            self.version_type = VersionType::SemVer {
                                major,
                                minor: minor + 1,
                                patch: 0,
                                candidate: 1,
                            };
                        }
                    },
                    BumpType::Release => {
                        if candidate == 0 {
                            return Err(
                                BumpError::LogicError(
                                    String::from_str("Cannot release without a candidate"),
                                ),
                            );
                        }
                        self.version_type = VersionType::SemVer {
                            major,
                            minor,
                            patch,
                            candidate: 0,
                        };
                    },
                    _ => {
                        proof {
                            assert(false);
                        }
                    },
                }
                self.timestamp = match &ts_fmt {
                    Some(f) => Some(now_formatted(f.as_str())),
                    None => None,
                };
                Ok(())
            },
        }
    }

    /// One calendar roll against the given rendering of today: increments
    /// the conflict counter on a same-period roll, otherwise adopts
    /// today's declared components and resets the counter to zero.
    pub fn calendar_bump_with(&mut self, today: &CalVerVersionSection) -> (r: Result<
        (),
        BumpError,
    >)
        requires
            old(self).wf(),
            old(self).config is CalVer,
            old(self).bump_fits(BumpType::Calendar),
        ensures
            final(self).wf(),
            r is Ok,
            calendar_rel(*old(self), *today, *final(self)),
    {
        let revision = match &self.version_type {
            VersionType::CalVer { revision } => *revision,
            VersionType::SemVer { .. } => {
                proof {
                    assert(false);
                }
                0
            },
        };
        let (same, month_declared, day_declared) = match &self.config {
            Config::CalVer(cv) => {
                let mut same = cv.version.year.eq(&today.year);
                if cv.format.month.is_some() {
                    same = same && opt_eq(&cv.version.month, &today.month);
                }
                if cv.format.day.is_some() {
                    same = same && opt_eq(&cv.version.day, &today.day);
                }
                (same, cv.format.month.is_some(), cv.format.day.is_some())
            },
            Config::SemVer(_) => {
                proof {
                    assert(false);
                }
                (false, false, false)
            },
        };
        if same {
            self.version_type = VersionType::CalVer { revision: revision + 1 };
        } else {
            let new_year = today.year.clone();
            let new_month = if month_declared {
                clone_opt(&today.month)
            } else {
                None
            };
            let new_day = if day_declared {
                clone_opt(&today.day)
            } else {
                None
            };
            match &mut self.config {
                Config::CalVer(cv) => {
                    cv.version.year = new_year;
                    cv.version.month = new_month;
                    cv.version.day = new_day;
                },
                Config::SemVer(_) => {},
            }
            self.version_type = VersionType::CalVer { revision: 0 };
        }
        Ok(())
    }
}

/// The fully-qualified build string: the plain or candidate rendering,
/// with nothing appended on a tagged commit, the development suffix after
/// its delimiter on an untagged one, and the rendering alone when source
/// control reported nothing. Calendar records render as their display.
pub open spec fn qualified_text(v: Version, tagged: bool, suffix: Option<Seq<char>>) -> Seq<
    char,
> {
    match (v.version_type, v.config) {
        (VersionType::SemVer { candidate, .. }, Config::SemVer(cfg)) => {
            let base = if candidate > 0 {
                render(v, BumpType::Candidate)
            } else {
                render(v, BumpType::Release)
            };
            if tagged {
                base
            } else {
                match suffix {
                    Some(x) => base + cfg.development.delimiter@ + x,
                    None => base,
                }
            }
        },
        _ => render(v, BumpType::Calendar),
    }
}

impl Version {
    /// Assembles the fully-qualified build string from the record and what
    /// source control reported: whether the current commit is exactly
    /// tagged, and the development suffix, if one was available.
    pub fn qualified_string(&self, tagged: bool, dev_suffix: Option<&str>) -> (s: String)
        requires
            self.wf(),
        ensures
            s@ == qualified_text(
                *self,
                tagged,
                match dev_suffix {
                    Some(x) => Some(x@),
                    None => None,
                },
            ),
    {
        match (&self.version_type, &self.config) {
            (VersionType::SemVer { candidate, .. }, Config::SemVer(cfg)) => {
                let mut s = if *candidate > 0 {
                    self.to_string(&BumpType::Candidate)
                } else {
                    self.to_string(&BumpType::Release)
                };
                if !tagged {
                    match dev_suffix {
                        Some(x) => {
                            s.append(cfg.development.delimiter.as_str());
                            s.append(x);
                        },
                        None => {},
                    }
                }
                s
            },
            _ => self.to_string(&BumpType::Calendar),
        }
    }
}

/// Copies an optional string; the copy holds the same value.
pub fn clone_opt(o: &Option<String>) -> (r: Option<String>)
    ensures
        r == *o,
{
    match o {
        Some(s) => Some(s.clone()),
        None => None,
    }
}

/// Compares two optional strings by their text.
pub fn opt_eq(a: &Option<String>, b: &Option<String>) -> (r: bool)
    ensures
        r == opt_view_eq(*a, *b),
{
    match (a, b) {
        (Some(x), Some(y)) => x.eq(y),
        (None, None) => true,
        _ => false,
    }
}

} // verus!
