//! Version records for a project, kept in a structured text file and
//! advanced by a fixed set of bump transitions.
//!
//! Two schemes are supported: semantic versioning (major.minor.patch with an
//! optional release-candidate counter) and calendar versioning (formatted
//! date components with a same-day conflict counter). The record model, the
//! bump state machine and the string renderers are verified; reading and
//! writing the backing file, and querying source control, are left to the
//! caller.

mod bump;
mod clock;
mod config;
mod doc;
mod fields;
mod laws;
mod parse;
mod strutil;
mod template;
mod version;

pub use crate::bump::build_tag_name;
pub use crate::bump::dev_policy;
pub use crate::bump::get_development_suffix;
pub use crate::bump::io_error;
pub use crate::bump::BumpError;
pub use crate::bump::BumpType;
pub use crate::bump::DevPolicy;
pub use crate::bump::PointType;
pub use crate::config::config_notices;
pub use crate::config::CalVerConfig;
pub use crate::config::CalVerConflictSection;
pub use crate::config::CalVerFormatSection;
pub use crate::config::CalVerVersionSection;
pub use crate::config::CandidateSection;
pub use crate::config::Config;
pub use crate::config::DevelopmentSection;
pub use crate::config::SemVerConfig;
pub use crate::config::SemVerFormatSection;
pub use crate::config::SemVerVersionSection;
pub use crate::config::default_calver_config;
pub use crate::config::default_semver_config;
pub use crate::version::Version;
pub use crate::version::VersionType;
