//! The commented skeleton written when a version file is first created.

use vstd::prelude::*;

use crate::config::Config;
use crate::strutil::{dec_digits, u32_to_string};
use crate::version::Version;

verus! {

/// The skeleton for a semantic-versioning record: the header, the format
/// section (with the stock timestamp pattern when none is configured),
/// the version counters, and the commented policy sections.
pub open spec fn semver_init_text(v: Version) -> Seq<char>
    recommends
        v.config is SemVer,
{
    match v.config {
        Config::SemVer(cfg) => "#  ____  __  __  __  __  ____ \n# (  _ \\(  )(  )(  \\/  )(  _ \\\n#  ) _ < )(__)(  )    (  )___/\n# (____/(______)(_/\\/\\_)(__)  \n#\n# https://github.com/launchfirestorm/bump\n\n[semver.format]\nprefix = \""@
            + cfg.format.prefix@ + "\"\ndelimiter = \""@ + cfg.format.delimiter@
            + "\"\ntimestamp = \""@ + (match cfg.format.timestamp {
            Some(t) => t@,
            None => "%Y-%m-%d %H:%M:%S %Z"@,
        }) + "\"\n\n# NOTE: This section is modified by the bump command\n[semver.version]\nmajor = "@
            + dec_digits(cfg.version.major as int) + "\nminor = "@ + dec_digits(
            cfg.version.minor as int,
        ) + "\npatch = "@ + dec_digits(cfg.version.patch as int) + "\ncandidate = "@ + dec_digits(
            cfg.version.candidate as int,
        )
            + "\n\n# Candidate promotion strategies:\n#  - major\n#  - minor\n#  - patch\n[semver.candidate]\npromotion = \""@
            + cfg.candidate.promotion@ + "\"\ndelimiter = \""@ + cfg.candidate.delimiter@
            + "\"\n\n# Development suffix strategies:\n#  - git_sha ( 7 char sha1 of the current commit )\n#  - branch ( append branch name )\n#  - full ( <branch>_<sha1> )\n[semver.development]\npromotion = \""@
            + cfg.development.promotion@ + "\"\ndelimiter = \""@ + cfg.development.delimiter@
            + "\"\n"@,
        _ => Seq::<char>::empty(),
    }
}

/// The skeleton for a calendar record: the header, the format section
/// with only the declared components, the stored date, and the conflict
/// section.
pub open spec fn calver_init_text(v: Version) -> Seq<char>
    recommends
        v.config is CalVer,
{
    match v.config {
        Config::CalVer(cv) => "#  ____  __  __  __  __  ____ \n# (  _ \\(  )(  )(  \\/  )(  _ \\\n#  ) _ < )(__)(  )    (  )___/\n# (____/(______)(_/\\/\\_)(__)  \n#\n# https://github.com/launchfirestorm/bump\n\n[calver.format]\nprefix = \""@
            + cv.format.prefix@ + "\"\ndelimiter = \""@ + cv.format.delimiter@ + "\"\nyear = \""@
            + cv.format.year@ + "\"\n"@ + (match cv.format.month {
            Some(m) => "month = \""@ + m@ + "\"\n"@,
            None => Seq::<char>::empty(),
        }) + (match cv.format.day {
            Some(d) => "day = \""@ + d@ + "\"\n"@,
            None => Seq::<char>::empty(),
        }) + "\n# NOTE: This section is modified by the bump command\n[calver.version]\nyear = \""@
            + cv.version.year@ + "\"\n"@ + (match cv.version.month {
            Some(m) => "month = \""@ + m@ + "\"\n"@,
            None => Seq::<char>::empty(),
        }) + (match cv.version.day {
            Some(d) => "day = \""@ + d@ + "\"\n"@,
            None => Seq::<char>::empty(),
        }) + "\n# revision increments on same-day bumps\n[calver.conflict]\nrevision = "@
            + dec_digits(cv.conflict.revision as int) + "\ndelimiter = \""@
            + cv.conflict.delimiter@ + "\"\n"@,
        _ => Seq::<char>::empty(),
    }
}

impl Version {
    /// The full commented text a fresh version file starts with, for the
    /// record's scheme and configuration.
    pub fn file_init_text(&self) -> (s: String)
        requires
            self.wf(),
        ensures
            self.config is SemVer ==> s@ == semver_init_text(*self),
            self.config is CalVer ==> s@ == calver_init_text(*self),
    {
        match &self.config {
            Config::SemVer(_) => self.semver_init_string(),
            Config::CalVer(_) => self.calver_init_string(),
        }
    }

    /// The semantic-versioning skeleton.
    #[verifier::rlimit(100)]
    fn semver_init_string(&self) -> (s: String)
        requires
            self.config is SemVer,
        ensures
            s@ == semver_init_text(*self),
    {
        let mut s = String::new();
        match &self.config {
            Config::SemVer(cfg) => {
                s.append(
                    "#  ____  __  __  __  __  ____ \n# (  _ \\(  )(  )(  \\/  )(  _ \\\n#  ) _ < )(__)(  )    (  )___/\n# (____/(______)(_/\\/\\_)(__)  \n#\n# https://github.com/launchfirestorm/bump\n\n[semver.format]\nprefix = \"",
                );
                s.append(cfg.format.prefix.as_str());
                s.append("\"\ndelimiter = \"");
                s.append(cfg.format.delimiter.as_str());
                s.append("\"\ntimestamp = \"");
                match &cfg.format.timestamp {
                    Some(t) => s.append(t.as_str()),
                    None => s.append("%Y-%m-%d %H:%M:%S %Z"),
                }
                s.append(
                    "\"\n\n# NOTE: This section is modified by the bump command\n[semver.version]\nmajor = ",
                );
                s.append(u32_to_string(cfg.version.major).as_str());
                s.append("\nminor = ");
                s.append(u32_to_string(cfg.version.minor).as_str());
                s.append("\npatch = ");
                s.append(u32_to_string(cfg.version.patch).as_str());
                s.append("\ncandidate = ");
                s.append(u32_to_string(cfg.version.candidate).as_str());
                s.append(
                    "\n\n# Candidate promotion strategies:\n#  - major\n#  - minor\n#  - patch\n[semver.candidate]\npromotion = \"",
                );
                s.append(cfg.candidate.promotion.as_str());
                s.append("\"\ndelimiter = \"");
                s.append(cfg.candidate.delimiter.as_str());
                s.append(
                    "\"\n\n# Development suffix strategies:\n#  - git_sha ( 7 char sha1 of the current commit )\n#  - branch ( append branch name )\n#  - full ( <branch>_<sha1> )\n[semver.development]\npromotion = \"",
                );
                s.append(cfg.development.promotion.as_str());
                s.append("\"\ndelimiter = \"");
                s.append(cfg.development.delimiter.as_str());
                s.append("\"\n");
                proof {
                    assert(s@ =~= semver_init_text(*self));
                }
            },
            Config::CalVer(_) => {
                proof {
                    assert(false);
                }
            },
        }
        s
    }

    /// The calendar skeleton.
    #[verifier::rlimit(100)]
    fn calver_init_string(&self) -> (s: String)
        requires
            self.config is CalVer,
        ensures
            s@ == calver_init_text(*self),
    {
        let mut s = String::new();
        match &self.config {
            Config::CalVer(cv) => {
                s.append(
                    "#  ____  __  __  __  __  ____ \n# (  _ \\(  )(  )(  \\/  )(  _ \\\n#  ) _ < )(__)(  )    (  )___/\n# (____/(______)(_/\\/\\_)(__)  \n#\n# https://github.com/launchfirestorm/bump\n\n[calver.format]\nprefix = \"",
                );
                s.append(cv.format.prefix.as_str());
                s.append("\"\ndelimiter = \"");
                s.append(cv.format.delimiter.as_str());
                s.append("\"\nyear = \"");
                s.append(cv.format.year.as_str());
                s.append("\"\n");
                match &cv.format.month {
                    Some(m) => {
                        s.append("month = \"");
                        s.append(m.as_str());
                        s.append("\"\n");
                    },
                    None => {},
                }
                match &cv.format.day {
                    Some(d) => {
                        s.append("day = \"");
                        s.append(d.as_str());
                        s.append("\"\n");
                    },
                    None => {},
                }
                s.append(
                    "\n# NOTE: This section is modified by the bump command\n[calver.version]\nyear = \"",
                );
                s.append(cv.version.year.as_str());
                s.append("\"\n");
                match &cv.version.month {
                    Some(m) => {
                        s.append("month = \"");
                        s.append(m.as_str());
                        s.append("\"\n");
                    },
                    None => {},
                }
                match &cv.version.day {
                    Some(d) => {
                        s.append("day = \"");
                        s.append(d.as_str());
                        s.append("\"\n");
                    },
                    None => {},
                }
                s.append(
                    "\n# revision increments on same-day bumps\n[calver.conflict]\nrevision = ",
                );
                s.append(u32_to_string(cv.conflict.revision).as_str());
                s.append("\ndelimiter = \"");
                s.append(cv.conflict.delimiter.as_str());
                s.append("\"\n");
                proof {
                    assert(s@ =~= calver_init_text(*self));
                }
            },
            Config::SemVer(_) => {
                proof {
                    assert(false);
                }
            },
        }
        s
    }
}

} // verus!
