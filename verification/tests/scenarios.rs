// End-to-end scenarios over the bump machine, the renderers, the errors
// and the source-control strings.

use bump::{
    BumpError, BumpType, CalVerConflictSection, CalVerConfig, CalVerFormatSection,
    CalVerVersionSection, Config, PointType, Version, VersionType,
};

fn semver_version(major: u32, minor: u32, patch: u32, candidate: u32, promotion: &str) -> Version {
    let mut config = bump::default_semver_config("v".to_string(), major, minor, patch, candidate);
    if let Config::SemVer(cfg) = &mut config {
        cfg.candidate.promotion = promotion.to_string();
        cfg.format.timestamp = None;
    }
    Version {
        prefix: "v".to_string(),
        timestamp: None,
        version_type: VersionType::SemVer { major, minor, patch, candidate },
        path: "bump.toml".to_string(),
        config,
    }
}

fn calver_version(
    year: &str,
    month: Option<&str>,
    day: Option<&str>,
    revision: u32,
) -> Version {
    Version {
        prefix: "v".to_string(),
        timestamp: None,
        version_type: VersionType::CalVer { revision },
        path: "bump.toml".to_string(),
        config: Config::CalVer(CalVerConfig {
            format: CalVerFormatSection {
                prefix: "v".to_string(),
                delimiter: ".".to_string(),
                year: "%Y".to_string(),
                month: month.map(|_| "%m".to_string()),
                day: day.map(|_| "%d".to_string()),
            },
            version: CalVerVersionSection {
                year: year.to_string(),
                month: month.map(|s| s.to_string()),
                day: day.map(|s| s.to_string()),
            },
            conflict: CalVerConflictSection { revision, delimiter: "-".to_string() },
        }),
    }
}

fn day(year: &str, month: &str, d: &str) -> CalVerVersionSection {
    CalVerVersionSection {
        year: year.to_string(),
        month: Some(month.to_string()),
        day: Some(d.to_string()),
    }
}

#[test]
fn candidate_line_from_v123_to_release() {
    // v1.2.3, candidate 0, promotion minor
    let mut version = semver_version(1, 2, 3, 0, "minor");

    version.bump(&BumpType::Candidate).unwrap();
    assert_eq!(version.to_string(&BumpType::Candidate), "v1.3.0-rc1");

    version.bump(&BumpType::Candidate).unwrap();
    assert_eq!(version.to_string(&BumpType::Candidate), "v1.3.0-rc2");

    version.bump(&BumpType::Release).unwrap();
    assert_eq!(version.to_string(&BumpType::Release), "v1.3.0");
}

#[test]
fn release_without_candidate_fails_and_mutates_nothing() {
    let mut version = semver_version(1, 2, 3, 0, "minor");

    let result = version.bump(&BumpType::Release);
    match result {
        Err(BumpError::LogicError(m)) => {
            assert_eq!(m, "Cannot release without a candidate");
        }
        _ => panic!("Expected LogicError"),
    }
    match version.version_type {
        VersionType::SemVer { major, minor, patch, candidate } => {
            assert_eq!((major, minor, patch, candidate), (1, 2, 3, 0));
        }
        _ => panic!("Expected SemVer version type"),
    }
    assert!(version.timestamp.is_none());
}

#[test]
fn unrecognized_promotion_falls_back_to_minor() {
    let mut version = semver_version(1, 2, 3, 0, "sideways");

    version.bump(&BumpType::Candidate).unwrap();
    match version.version_type {
        VersionType::SemVer { major, minor, patch, candidate } => {
            assert_eq!((major, minor, patch, candidate), (1, 3, 0, 1));
        }
        _ => panic!("Expected SemVer version type"),
    }
}

#[test]
fn semver_record_rejects_calendar_bump() {
    let mut version = semver_version(1, 2, 3, 0, "minor");

    let result = version.bump(&BumpType::Calendar);
    match result {
        Err(BumpError::LogicError(m)) => {
            assert!(m.contains("SemVer only supports"));
        }
        _ => panic!("Expected LogicError"),
    }
}

#[test]
fn simulated_same_day_rolls_twice() {
    // year=2024, month=01, day=15, revision 0, rolled twice on 2024-01-15
    let mut version = calver_version("2024", Some("01"), Some("15"), 0);
    let today = day("2024", "01", "15");

    version.calendar_bump_with(&today).unwrap();
    match (&version.version_type, &version.config) {
        (VersionType::CalVer { revision }, Config::CalVer(cv)) => {
            assert_eq!(*revision, 1);
            assert_eq!(cv.version.year, "2024");
            assert_eq!(cv.version.month.as_deref(), Some("01"));
            assert_eq!(cv.version.day.as_deref(), Some("15"));
        }
        _ => panic!("Expected CalVer record"),
    }

    version.calendar_bump_with(&today).unwrap();
    match &version.version_type {
        VersionType::CalVer { revision } => assert_eq!(*revision, 2),
        _ => panic!("Expected CalVer version type"),
    }
}

#[test]
fn simulated_next_day_resets_revision_and_adopts_date() {
    let mut version = calver_version("2024", Some("01"), Some("15"), 0);

    version.calendar_bump_with(&day("2024", "01", "15")).unwrap();
    match &version.version_type {
        VersionType::CalVer { revision } => assert_eq!(*revision, 1),
        _ => panic!("Expected CalVer version type"),
    }

    version.calendar_bump_with(&day("2024", "01", "16")).unwrap();
    match (&version.version_type, &version.config) {
        (VersionType::CalVer { revision }, Config::CalVer(cv)) => {
            assert_eq!(*revision, 0);
            assert_eq!(cv.version.year, "2024");
            assert_eq!(cv.version.month.as_deref(), Some("01"));
            assert_eq!(cv.version.day.as_deref(), Some("16"));
        }
        _ => panic!("Expected CalVer record"),
    }
}

#[test]
fn year_month_record_ignores_day_when_comparing() {
    // A record configured with year+month never considers day
    let mut version = calver_version("2024", Some("01"), None, 3);
    let today = CalVerVersionSection {
        year: "2024".to_string(),
        month: Some("01".to_string()),
        day: Some("31".to_string()),
    };

    version.calendar_bump_with(&today).unwrap();
    match (&version.version_type, &version.config) {
        (VersionType::CalVer { revision }, Config::CalVer(cv)) => {
            assert_eq!(*revision, 4);
            assert_eq!(cv.version.day, None);
        }
        _ => panic!("Expected CalVer record"),
    }
}

#[test]
fn calver_display_hides_zero_revision() {
    let version = calver_version("2024", Some("01"), Some("15"), 0);
    assert_eq!(version.to_string(&BumpType::Calendar), "v2024.01.15");

    let version = calver_version("2024", Some("01"), Some("15"), 2);
    assert_eq!(version.to_string(&BumpType::Calendar), "v2024.01.15-2");

    // Base drops the prefix for calendar records too
    assert_eq!(version.to_string(&BumpType::Base), "2024.01.15-2");
}

#[test]
fn ambiguous_scheme_sections_are_refused() {
    let content = r#"[semver.version]
major = 1
minor = 0
patch = 0
candidate = 0

[calver.format]
year = "%Y"

[calver.version]
year = "2024"

[calver.conflict]
revision = 0
"#;

    match Version::from_toml_str(content, "bump.toml") {
        Err(BumpError::LogicError(m)) => {
            assert!(m.contains("both"));
            assert!(m.contains("mutually exclusive"));
        }
        _ => panic!("Expected LogicError"),
    }
}

#[test]
fn absent_scheme_sections_are_refused() {
    let content = "# just a comment\n";

    match Version::from_toml_str(content, "bump.toml") {
        Err(BumpError::LogicError(m)) => {
            assert!(m.contains("neither"));
        }
        _ => panic!("Expected LogicError"),
    }
}

#[test]
fn broken_toml_is_a_config_error() {
    match Version::from_toml_str("not [ valid = toml", "bump.toml") {
        Err(BumpError::TomlError(_)) => (),
        _ => panic!("Expected TomlError"),
    }
}

#[test]
fn development_suffix_follows_the_policy() {
    let mut version = semver_version(1, 2, 3, 0, "minor");

    let suffix = bump::get_development_suffix(&version, "abc1234", "main").unwrap();
    assert_eq!(suffix, "abc1234");

    if let Config::SemVer(cfg) = &mut version.config {
        cfg.development.promotion = "branch".to_string();
    }
    let suffix = bump::get_development_suffix(&version, "abc1234", "main").unwrap();
    assert_eq!(suffix, "main");

    if let Config::SemVer(cfg) = &mut version.config {
        cfg.development.promotion = "full".to_string();
    }
    let suffix = bump::get_development_suffix(&version, "abc1234", "main").unwrap();
    assert_eq!(suffix, "main_abc1234");

    // Unrecognized policies fall back to the commit id
    if let Config::SemVer(cfg) = &mut version.config {
        cfg.development.promotion = "sideways".to_string();
    }
    let suffix = bump::get_development_suffix(&version, "abc1234", "main").unwrap();
    assert_eq!(suffix, "abc1234");
}

#[test]
fn development_suffix_is_refused_for_calver() {
    let version = calver_version("2024", None, None, 0);

    match bump::get_development_suffix(&version, "abc1234", "main") {
        Err(BumpError::LogicError(m)) => {
            assert_eq!(m, "CalVer does not support development suffixes");
        }
        _ => panic!("Expected LogicError"),
    }
}

#[test]
fn qualified_string_forms() {
    let version = semver_version(1, 2, 3, 0, "minor");

    // A tagged commit is a clean release build
    assert_eq!(version.qualified_string(true, None), "v1.2.3");
    assert_eq!(version.qualified_string(true, Some("abc1234")), "v1.2.3");

    // Untagged builds carry the development suffix
    assert_eq!(version.qualified_string(false, Some("abc1234")), "v1.2.3+abc1234");

    // Without source control the plain form degrades gracefully
    assert_eq!(version.qualified_string(false, None), "v1.2.3");

    // An open candidate line keeps its counter in the build string
    let candidate = semver_version(1, 3, 0, 2, "minor");
    assert_eq!(candidate.qualified_string(false, Some("abc1234")), "v1.3.0-rc2+abc1234");
}

#[test]
fn semver_tag_names() {
    let version = semver_version(1, 2, 3, 0, "minor");
    assert_eq!(bump::build_tag_name(&version).unwrap(), "v1.2.3");

    let candidate = semver_version(1, 3, 0, 2, "minor");
    assert_eq!(bump::build_tag_name(&candidate).unwrap(), "v1.3.0-rc2");
}

#[test]
fn policy_notices_name_the_stray_strings() {
    let version = semver_version(1, 0, 0, 0, "minor");
    assert!(bump::config_notices(&version.config).is_empty());

    let mut config = version.config;
    if let Config::SemVer(cfg) = &mut config {
        cfg.development.promotion = "tag".to_string();
        cfg.candidate.promotion = "odd".to_string();
    }
    let notices = bump::config_notices(&config);
    assert_eq!(notices.len(), 4);
    assert_eq!(notices[0], "invalid development promotion strategy: tag");
    assert_eq!(notices[1], "defaulting to git_sha");
    assert_eq!(notices[2], "invalid candidate promotion strategy: odd");
    assert_eq!(notices[3], "defaulting to minor");
}

#[test]
fn large_counters_render_in_full() {
    let version = semver_version(4294967295, 0, 10, 0, "minor");
    assert_eq!(version.to_string(&BumpType::Base), "4294967295.0.10");
}

#[test]
fn calver_document_round_trip() {
    let version = calver_version("2024", Some("01"), Some("15"), 7);

    let initial = version.file_init_text();
    let written = version.updated_document_text(&initial).unwrap();
    let read_back = Version::from_toml_str(&written, "bump.toml").unwrap();

    assert_eq!(read_back.prefix, "v");
    match (&read_back.version_type, &read_back.config) {
        (VersionType::CalVer { revision }, Config::CalVer(cv)) => {
            assert_eq!(*revision, 7);
            assert_eq!(cv.version.year, "2024");
            assert_eq!(cv.version.month.as_deref(), Some("01"));
            assert_eq!(cv.version.day.as_deref(), Some("15"));
            assert_eq!(cv.format.year, "%Y");
            assert_eq!(cv.conflict.delimiter, "-");
        }
        _ => panic!("Expected CalVer record"),
    }
}
