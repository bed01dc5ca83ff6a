// The free-form version-string parser.

use bump::{BumpError, Version, VersionType};

fn parsed_quad(v: &Version) -> (u32, u32, u32, u32) {
    match v.version_type {
        VersionType::SemVer { major, minor, patch, candidate } => (major, minor, patch, candidate),
        _ => panic!("Expected SemVer version type"),
    }
}

fn parse_error_of(s: &str) -> String {
    match Version::from_string(s, "bump.toml") {
        Err(BumpError::ParseError(m)) => m,
        Err(_) => panic!("Expected ParseError"),
        Ok(_) => panic!("expected a parse failure for {s:?}"),
    }
}

#[test]
fn parses_free_form_string_with_prefix_and_candidate() {
    let version = Version::from_string("relx2.0.5-rc3", "bump.toml").unwrap();

    assert_eq!(version.prefix, "relx");
    assert_eq!(parsed_quad(&version), (2, 0, 5, 3));
}

#[test]
fn parses_plain_tag() {
    let version = Version::from_string("v1.2.3", "bump.toml").unwrap();

    assert_eq!(version.prefix, "v");
    assert_eq!(parsed_quad(&version), (1, 2, 3, 0));
    assert_eq!(version.path, "bump.toml");
    assert!(version.timestamp.is_none());
}

#[test]
fn parses_without_prefix() {
    let version = Version::from_string("10.20.30-rc40", "x.toml").unwrap();

    assert_eq!(version.prefix, "");
    assert_eq!(parsed_quad(&version), (10, 20, 30, 40));
}

#[test]
fn ignores_trailing_text_after_triple() {
    let version = Version::from_string("v1.2.3junk", "bump.toml").unwrap();
    assert_eq!(parsed_quad(&version), (1, 2, 3, 0));

    // A suffix that is not exactly `-rc{digits}` is ignored too
    let version = Version::from_string("v1.2.3-rx5", "bump.toml").unwrap();
    assert_eq!(parsed_quad(&version), (1, 2, 3, 0));
}

#[test]
fn missing_major_names_the_field() {
    assert_eq!(parse_error_of("vx"), "invalid MAJOR value");
    assert_eq!(parse_error_of(""), "invalid MAJOR value");
}

#[test]
fn oversized_major_names_the_field() {
    assert_eq!(parse_error_of("v99999999999.0.0"), "invalid MAJOR value");
}

#[test]
fn missing_dots_are_a_format_error() {
    assert_eq!(parse_error_of("v1"), "invalid version format");
    assert_eq!(parse_error_of("v1.2"), "invalid version format");
}

#[test]
fn missing_minor_names_the_field() {
    assert_eq!(parse_error_of("v1..3"), "invalid MINOR value");
}

#[test]
fn missing_patch_names_the_field() {
    assert_eq!(parse_error_of("v1.2."), "invalid PATCH value");
}

#[test]
fn candidate_marker_without_digits_names_the_field() {
    assert_eq!(parse_error_of("v1.2.3-rc"), "invalid CANDIDATE value");
    assert_eq!(parse_error_of("v1.2.3-rc99999999999"), "invalid CANDIDATE value");
}

#[test]
fn parsed_record_carries_default_config() {
    let version = Version::from_string("rel7.8.9", "bump.toml").unwrap();

    match &version.config {
        bump::Config::SemVer(cfg) => {
            assert_eq!(cfg.format.prefix, "rel");
            assert_eq!(cfg.version.major, 7);
            assert_eq!(cfg.version.minor, 8);
            assert_eq!(cfg.version.patch, 9);
            assert_eq!(cfg.version.candidate, 0);
            assert_eq!(cfg.candidate.promotion, "minor");
            assert_eq!(cfg.candidate.delimiter, "-rc");
            assert_eq!(cfg.development.promotion, "git_sha");
            assert_eq!(cfg.development.delimiter, "+");
        }
        _ => panic!("Expected SemVer config"),
    }
}
