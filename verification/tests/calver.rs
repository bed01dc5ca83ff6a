// Calendar records: the same-day conflict counter, date adoption, and the
// calendar renderings.

use bump::{BumpError, BumpType, Config, PointType, Version, VersionType};

fn roll(content: &str) -> (Version, String) {
    let mut version = Version::from_toml_str(content, "bump.toml").unwrap();
    version.bump(&BumpType::Calendar).unwrap();
    let written = version.updated_document_text(content).unwrap();
    (version, written)
}

#[test]
fn test_init_calver_creates_proper_structure() {
    let version = Version {
        prefix: "v".to_string(),
        timestamp: None,
        version_type: VersionType::CalVer { revision: 0 },
        path: "bump.toml".to_string(),
        config: bump::default_calver_config("v".to_string()),
    };

    let content = version.file_init_text();

    // Check for header
    assert!(content.contains("https://github.com/launchfirestorm/bump"));

    // Check for [calver.format] section
    assert!(content.contains("[calver.format]"));
    assert!(content.contains("prefix = \"\""));
    assert!(content.contains("year = \"%Y\""));
    assert!(content.contains("month = \"%m\""));
    assert!(content.contains("day = \"%d\""));

    // Check for [calver.version] section
    assert!(content.contains("[calver.version]"));
    assert!(content.contains("NOTE: This section is modified by the bump command"));

    // Check for conflict section
    assert!(content.contains("[calver.conflict]"));
    assert!(content.contains("revision = 0"));
    assert!(content.contains("delimiter = \"-\""));

    // Verify it can be read back
    let read_version = Version::from_toml_str(&content, "bump.toml").unwrap();
    match &read_version.version_type {
        VersionType::CalVer { revision } => {
            assert_eq!(*revision, 0);
        }
        _ => panic!("Expected CalVer version type"),
    }
    assert_eq!(read_version.prefix, "");
}

#[test]
fn test_calendar_bump_updates_to_current_date() {
    let content = r#"[calver.format]
prefix = ""
delimiter = "."
year = "%Y"
month = "%m"
day = "%d"

[calver.version]
year = "2024"
month = "01"
day = "15"

[calver.conflict]
revision = 0
delimiter = "-"
"#;

    let (_, written) = roll(content);

    // Verify date was updated to current date
    let updated_version = Version::from_toml_str(&written, "bump.toml").unwrap();
    if let Config::CalVer(config) = &updated_version.config {
        let now = chrono::Utc::now();
        assert_eq!(config.version.year, now.format("%Y").to_string());
        assert_eq!(config.version.month, Some(now.format("%m").to_string()));
        assert_eq!(config.version.day, Some(now.format("%d").to_string()));

        // Revision should be reset to 0 for new date
        if let VersionType::CalVer { revision } = updated_version.version_type {
            assert_eq!(revision, 0);
        }
    } else {
        panic!("Expected CalVer config");
    }
}

#[test]
fn test_same_day_bump_increments_revision() {
    let now = chrono::Utc::now();
    let content = format!(
        r#"[calver.format]
prefix = ""
delimiter = "."
year = "%Y"
month = "%m"
day = "%d"

[calver.version]
year = "{}"
month = "{}"
day = "{}"

[calver.conflict]
revision = 0
delimiter = "-"
"#,
        now.format("%Y"),
        now.format("%m"),
        now.format("%d")
    );

    // First bump - should increment revision since date matches
    let (_, written) = roll(&content);

    let updated = Version::from_toml_str(&written, "bump.toml").unwrap();
    if let VersionType::CalVer { revision } = updated.version_type {
        assert_eq!(revision, 1);
    } else {
        panic!("Expected CalVer version type");
    }

    // Second bump - should increment to 2
    let (_, written2) = roll(&written);

    let updated = Version::from_toml_str(&written2, "bump.toml").unwrap();
    if let VersionType::CalVer { revision } = updated.version_type {
        assert_eq!(revision, 2);
    } else {
        panic!("Expected CalVer version type");
    }
}

#[test]
fn test_different_day_resets_revision() {
    let now = chrono::Utc::now();
    let yesterday = now - chrono::Duration::days(1);
    let content = format!(
        r#"[calver.format]
prefix = ""
delimiter = "."
year = "%Y"
month = "%m"
day = "%d"

[calver.version]
year = "{}"
month = "{}"
day = "{}"

[calver.conflict]
revision = 5
delimiter = "-"
"#,
        yesterday.format("%Y"),
        yesterday.format("%m"),
        yesterday.format("%d")
    );

    // Bump - should reset revision to 0 for new date
    let (_, written) = roll(&content);

    let updated = Version::from_toml_str(&written, "bump.toml").unwrap();
    if let Config::CalVer(config) = &updated.config {
        assert_eq!(config.version.year, now.format("%Y").to_string());
        assert_eq!(config.version.month, Some(now.format("%m").to_string()));
        assert_eq!(config.version.day, Some(now.format("%d").to_string()));

        if let VersionType::CalVer { revision } = updated.version_type {
            assert_eq!(revision, 0, "Revision should reset to 0 for new date");
        }
    } else {
        panic!("Expected CalVer config");
    }
}

#[test]
fn test_year_only_format() {
    let content = r#"[calver.format]
prefix = "v"
delimiter = "."
year = "%Y"

[calver.version]
year = "2024"

[calver.conflict]
revision = 0
delimiter = "-"
"#;

    let (_, written) = roll(content);

    // Check version string
    let updated = Version::from_toml_str(&written, "bump.toml").unwrap();
    let version_str = updated.to_string(&BumpType::Calendar);
    let now = chrono::Utc::now();
    assert_eq!(version_str, format!("v{}", now.format("%Y")));

    // Verify stored version
    if let Config::CalVer(config) = &updated.config {
        assert_eq!(config.version.year, now.format("%Y").to_string());
        assert_eq!(config.version.month, None);
        assert_eq!(config.version.day, None);
    } else {
        panic!("Expected CalVer config");
    }
}

#[test]
fn test_year_month_format() {
    let content = r#"[calver.format]
prefix = ""
delimiter = "."
year = "%Y"
month = "%m"

[calver.version]
year = "2024"
month = "01"

[calver.conflict]
revision = 0
delimiter = "-"
"#;

    let (_, written) = roll(content);

    // Check version string
    let updated = Version::from_toml_str(&written, "bump.toml").unwrap();
    let version_str = updated.to_string(&BumpType::Calendar);
    let now = chrono::Utc::now();
    assert_eq!(version_str, now.format("%Y.%m").to_string());

    // Verify stored version
    if let Config::CalVer(config) = &updated.config {
        assert_eq!(config.version.year, now.format("%Y").to_string());
        assert_eq!(config.version.month, Some(now.format("%m").to_string()));
        assert_eq!(config.version.day, None);
    } else {
        panic!("Expected CalVer config");
    }
}

#[test]
fn test_calendar_with_revision_in_version_string() {
    let now = chrono::Utc::now();
    let content = format!(
        r#"[calver.format]
prefix = "v"
delimiter = "."
year = "%Y"
month = "%m"
day = "%d"

[calver.version]
year = "{}"
month = "{}"
day = "{}"

[calver.conflict]
revision = 0
delimiter = "-"
"#,
        now.format("%Y"),
        now.format("%m"),
        now.format("%d")
    );

    // First bump on the stored day - revision 1
    let (_, written) = roll(&content);

    let updated = Version::from_toml_str(&written, "bump.toml").unwrap();
    let version_str = updated.to_string(&BumpType::Calendar);
    assert_eq!(version_str, format!("v{}-1", now.format("%Y.%m.%d")));
}

#[test]
fn test_calver_rejects_semver_bump_types() {
    let content = r#"[calver.format]
prefix = ""
delimiter = "."
year = "%Y"

[calver.version]
year = "2024"

[calver.conflict]
revision = 0
delimiter = "-"
"#;

    let mut version = Version::from_toml_str(content, "bump.toml").unwrap();

    // Point bumps fail
    let result = version.bump(&BumpType::Point(PointType::Major));
    assert!(result.is_err());
    assert!(result
        .unwrap_err()
        .to_display_string()
        .contains("CalVer only supports --calendar"));

    // Candidate fails
    let mut version = Version::from_toml_str(content, "bump.toml").unwrap();
    let result = version.bump(&BumpType::Candidate);
    assert!(result.is_err());

    // Release fails
    let mut version = Version::from_toml_str(content, "bump.toml").unwrap();
    let result = version.bump(&BumpType::Release);
    assert!(result.is_err());
}

#[test]
fn test_calver_preserves_comments_on_bump() {
    let content = r#"# This is a custom comment
[calver.format]
prefix = ""
delimiter = "."
year = "%Y"

# Another comment
[calver.version]
year = "2024"

[calver.conflict]
revision = 0
delimiter = "-"
"#;

    let (_, written) = roll(content);

    assert!(written.contains("# This is a custom comment"));
    assert!(written.contains("# Another comment"));
}

#[test]
fn test_calver_custom_delimiter() {
    let content = r#"[calver.format]
prefix = "release_"
delimiter = "-"
year = "%Y"
month = "%m"
day = "%d"

[calver.version]
year = "2024"
month = "01"
day = "01"

[calver.conflict]
revision = 0
delimiter = "."
"#;

    let (_, written) = roll(content);

    // Check version string uses custom delimiter
    let updated = Version::from_toml_str(&written, "bump.toml").unwrap();
    let version_str = updated.to_string(&BumpType::Calendar);
    let now = chrono::Utc::now();
    assert_eq!(version_str, format!("release_{}", now.format("%Y-%m-%d")));
}

#[test]
fn test_format_section_preservation() {
    let now = chrono::Utc::now();
    let content = format!(
        r#"[calver.format]
prefix = "v"
delimiter = "."
year = "%Y"
month = "%m"
day = "%d"

[calver.version]
year = "{}"
month = "{}"
day = "{}"

[calver.conflict]
revision = 0
delimiter = "-"
"#,
        now.format("%Y"),
        now.format("%m"),
        now.format("%d")
    );

    let (_, written) = roll(&content);

    // The format section keeps its values
    assert!(written.contains("prefix = \"v\""));
    assert!(written.contains("delimiter = \".\""));

    let updated = Version::from_toml_str(&written, "bump.toml").unwrap();
    if let Config::CalVer(config) = &updated.config {
        assert_eq!(config.format.prefix, "v");
        assert_eq!(config.format.delimiter, ".");
    } else {
        panic!("Expected CalVer config");
    }
}

#[test]
fn test_format_section_inline_comments_preserved() {
    let now = chrono::Utc::now();
    let mut content = format!(
        r#"[calver.format]
prefix = "v"
delimiter = "."
year = "%Y"        # strftime 4 digit year
month = "%m"       # [optional] strftime zero padded month
day = "%d"         # [optional] strftime zero padded day

[calver.version]
year = "{}"
month = "{}"
day = "{}"

[calver.conflict]
revision = 0       # increments on same day bumps
delimiter = "-"
"#,
        now.format("%Y"),
        now.format("%m"),
        now.format("%d")
    );

    // Bump the version multiple times
    for _ in 0..3 {
        let (_, written) = roll(&content);
        content = written;
    }

    assert!(content.contains("# strftime 4 digit year"));
    assert!(content.contains("# [optional] strftime zero padded month"));
    assert!(content.contains("# [optional] strftime zero padded day"));
}

#[test]
fn test_build_tag_name_calver_uses_full_version_string() {
    let content = r#"[calver.format]
prefix = ""
delimiter = "."
year = "%Y"
month = "%m"
day = "%d"

[calver.version]
year = "2026"
month = "02"
day = "28"

[calver.conflict]
revision = 1
delimiter = "-"
"#;

    let version = Version::from_toml_str(content, "bump.toml").unwrap();
    let tag_name = bump::build_tag_name(&version).unwrap();

    assert_eq!(tag_name, "2026.02.28-1");
}

#[test]
fn test_build_tag_name_calver_respects_custom_format_and_delimiters() {
    let content = r#"[calver.format]
prefix = "release_"
delimiter = "-"
year = "%Y"
month = "%m"

[calver.version]
year = "2026"
month = "02"

[calver.conflict]
revision = 3
delimiter = "."
"#;

    let version = Version::from_toml_str(content, "bump.toml").unwrap();
    let tag_name = bump::build_tag_name(&version).unwrap();

    assert_eq!(tag_name, "release_2026-02.3");
}
