//! The free-form version-string parser: an optional alphabetic prefix,
//! `major.minor.patch`, and an optional `-rc{candidate}` suffix, with the
//! grammar written out as spec functions.

use vstd::prelude::*;

use crate::bump::BumpError;
use crate::config::{Config, semver_defaults};
use crate::strutil::{
    digits_to_int, is_alpha_char, is_digit_char, parse_digit_run,
};
use crate::version::{Version, VersionType};
use crate::config::default_semver_config;

verus! {

/// The end of the run of ASCII letters starting at `i`.
pub open spec fn alpha_end(s: Seq<char>, i: int) -> int
    recommends
        0 <= i <= s.len(),
    decreases s.len() - i when 0 <= i <= s.len()
{
    if i < s.len() && is_alpha_char(s[i]) {
        alpha_end(s, i + 1)
    } else {
        i
    }
}

/// The end of the run of ASCII digits starting at `i`.
pub open spec fn digit_end(s: Seq<char>, i: int) -> int
    recommends
        0 <= i <= s.len(),
    decreases s.len() - i when 0 <= i <= s.len()
{
    if i < s.len() && is_digit_char(s[i]) {
        digit_end(s, i + 1)
    } else {
        i
    }
}

proof fn lemma_alpha_end(s: Seq<char>, i: int)
    requires
        0 <= i <= s.len(),
    ensures
        i <= alpha_end(s, i) <= s.len(),
    decreases s.len() - i,
{
    if i < s.len() && is_alpha_char(s[i]) {
        lemma_alpha_end(s, i + 1);
    }
}

proof fn lemma_digit_end(s: Seq<char>, i: int)
    requires
        0 <= i <= s.len(),
    ensures
        i <= digit_end(s, i) <= s.len(),
        forall|k: int| i <= k < digit_end(s, i) ==> is_digit_char(#[trigger] s[k]),
    decreases s.len() - i,
{
    if i < s.len() && is_digit_char(s[i]) {
        lemma_digit_end(s, i + 1);
    }
}

/// Whether a `-rc` marker stands at `i`.
pub open spec fn has_rc(s: Seq<char>, i: int) -> bool {
    i + 3 <= s.len() && s[i] == '-' && s[i + 1] == 'r' && s[i + 2] == 'c'
}

/// The string parses: each numeric group is present and fits in a `u32`,
/// and the two separating dots are where the grammar puts them. Text after
/// the parsed portion is ignored.
pub open spec fn pv_ok(s: Seq<char>) -> bool {
    let p = alpha_end(s, 0);
    let m1 = digit_end(s, p);
    &&& m1 > p
    &&& digits_to_int(s.subrange(p, m1)) <= u32::MAX
    &&& m1 < s.len() && s[m1] == '.'
    &&& {
        let m2 = digit_end(s, m1 + 1);
        &&& m2 > m1 + 1
        &&& digits_to_int(s.subrange(m1 + 1, m2)) <= u32::MAX
        &&& m2 < s.len() && s[m2] == '.'
        &&& {
            let m3 = digit_end(s, m2 + 1);
            &&& m3 > m2 + 1
            &&& digits_to_int(s.subrange(m2 + 1, m3)) <= u32::MAX
            &&& (has_rc(s, m3) ==> {
                let c1 = digit_end(s, m3 + 3);
                c1 > m3 + 3 && digits_to_int(s.subrange(m3 + 3, c1)) <= u32::MAX
            })
        }
    }
}

/// The parse error for a string that does not parse: a missing or
/// oversized numeric group is named; a missing dot is a format error.
pub open spec fn pv_msg(s: Seq<char>) -> Seq<char> {
    let p = alpha_end(s, 0);
    let m1 = digit_end(s, p);
    if m1 == p || digits_to_int(s.subrange(p, m1)) > u32::MAX {
        "invalid MAJOR value"@
    } else if !(m1 < s.len() && s[m1] == '.') {
        "invalid version format"@
    } else {
        let m2 = digit_end(s, m1 + 1);
        if m2 == m1 + 1 || digits_to_int(s.subrange(m1 + 1, m2)) > u32::MAX {
            "invalid MINOR value"@
        } else if !(m2 < s.len() && s[m2] == '.') {
            "invalid version format"@
        } else {
            let m3 = digit_end(s, m2 + 1);
            if m3 == m2 + 1 || digits_to_int(s.subrange(m2 + 1, m3)) > u32::MAX {
                "invalid PATCH value"@
            } else {
                "invalid CANDIDATE value"@
            }
        }
    }
}

/// The parsed prefix: the leading run of letters.
pub open spec fn pv_prefix(s: Seq<char>) -> Seq<char> {
    s.subrange(0, alpha_end(s, 0))
}

/// The parsed major number.
pub open spec fn pv_major(s: Seq<char>) -> int {
    digits_to_int(s.subrange(alpha_end(s, 0), digit_end(s, alpha_end(s, 0))))
}

/// The parsed minor number.
pub open spec fn pv_minor(s: Seq<char>) -> int {
    let m1 = digit_end(s, alpha_end(s, 0));
    digits_to_int(s.subrange(m1 + 1, digit_end(s, m1 + 1)))
}

/// The parsed patch number.
pub open spec fn pv_patch(s: Seq<char>) -> int {
    let m1 = digit_end(s, alpha_end(s, 0));
    let m2 = digit_end(s, m1 + 1);
    digits_to_int(s.subrange(m2 + 1, digit_end(s, m2 + 1)))
}

/// The parsed candidate number; zero when the `-rc` suffix is absent.
pub open spec fn pv_candidate(s: Seq<char>) -> int {
    let m1 = digit_end(s, alpha_end(s, 0));
    let m2 = digit_end(s, m1 + 1);
    let m3 = digit_end(s, m2 + 1);
    if has_rc(s, m3) {
        digits_to_int(s.subrange(m3 + 3, digit_end(s, m3 + 3)))
    } else {
        0
    }
}

/// True of an ASCII letter.
fn is_alpha(c: char) -> (r: bool)
    ensures
        r == is_alpha_char(c),
{
    let u = c as u32;
    (65 <= u && u <= 90) || (97 <= u && u <= 122)
}

/// True of an ASCII digit.
fn is_digit(c: char) -> (r: bool)
    ensures
        r == is_digit_char(c),
{
    let u = c as u32;
    48 <= u && u <= 57
}

/// Walks to the end of the letter run starting at `from`.
fn scan_alpha(s: &str, from: usize) -> (r: usize)
    requires
        from <= s@.len(),
    ensures
        r == alpha_end(s@, from as int),
        from <= r <= s@.len(),
{
    proof {
        lemma_alpha_end(s@, from as int);
    }
    let len = s.unicode_len();
    let mut j = from;
    while j < len && is_alpha(s.get_char(j))
        invariant
            from <= j <= len,
            len == s@.len(),
            alpha_end(s@, from as int) == alpha_end(s@, j as int),
        decreases len - j,
    {
        proof {
            lemma_alpha_end(s@, j as int + 1);
        }
        j = j + 1;
    }
    j
}

/// Walks to the end of the digit run starting at `from`.
fn scan_digits(s: &str, from: usize) -> (r: usize)
    requires
        from <= s@.len(),
    ensures
        r == digit_end(s@, from as int),
        from <= r <= s@.len(),
{
    proof {
        lemma_digit_end(s@, from as int);
    }
    let len = s.unicode_len();
    let mut j = from;
    while j < len && is_digit(s.get_char(j))
        invariant
            from <= j <= len,
            len == s@.len(),
            digit_end(s@, from as int) == digit_end(s@, j as int),
        decreases len - j,
    {
        proof {
            lemma_digit_end(s@, j as int + 1);
        }
        j = j + 1;
    }
    j
}

/// Reads the digit run `[from, to)` as a `u32`, or fails with the given
/// message when the run is empty or its value does not fit.
fn read_group(s: &str, from: usize, to: usize, msg: &str) -> (r: Result<u32, BumpError>)
    requires
        from <= to <= s@.len(),
        to == digit_end(s@, from as int),
    ensures
        match r {
            Ok(v) => from < to && v as int == digits_to_int(
                s@.subrange(from as int, to as int),
            ) && v <= u32::MAX,
            Err(e) => {
                &&& (from == to || digits_to_int(s@.subrange(from as int, to as int)) > u32::MAX)
                &&& e matches BumpError::ParseError(m) && m@ == msg@
            },
        },
{
    proof {
        lemma_digit_end(s@, from as int);
    }
    if from == to {
        return Err(BumpError::ParseError(String::from_str(msg)));
    }
    match parse_digit_run(s, from, to) {
        Some(v) => Ok(v),
        None => Err(BumpError::ParseError(String::from_str(msg))),
    }
}

impl Version {
    /// Parses a free-form version string such as `v1.2.3-rc4`: an optional
    /// alphabetic prefix, the dotted numeric triple, and an optional
    /// `-rc{candidate}` suffix; trailing text is ignored. A missing or
    /// oversized numeric group names the offending field; a missing dot is
    /// an invalid format. The record carries the parsed state over the
    /// documented default configuration.
    pub fn from_string(version_str: &str, path: &str) -> (r: Result<Version, BumpError>)
        ensures
            r is Ok <==> pv_ok(version_str@),
            r matches Ok(v) ==> {
                &&& v.wf()
                &&& v.prefix@ == pv_prefix(version_str@)
                &&& v.version_type matches VersionType::SemVer { major, minor, patch, candidate }
                    && major == pv_major(version_str@) && minor == pv_minor(version_str@)
                    && patch == pv_patch(version_str@) && candidate == pv_candidate(version_str@)
                &&& v.timestamp is None
                &&& v.path@ == path@
                &&& v.config matches Config::SemVer(c) && semver_defaults(
                    c,
                    pv_prefix(version_str@),
                    (pv_major(version_str@)) as u32,
                    (pv_minor(version_str@)) as u32,
                    (pv_patch(version_str@)) as u32,
                    (pv_candidate(version_str@)) as u32,
                )
            },
            r matches Err(e) ==> e matches BumpError::ParseError(m) && m@ == pv_msg(
                version_str@,
            ),
    {
        let len = version_str.unicode_len();
        let p = scan_alpha(version_str, 0);
        let m1 = scan_digits(version_str, p);
        let major = match read_group(version_str, p, m1, "invalid MAJOR value") {
            Ok(v) => v,
            Err(e) => {
                return Err(e);
            },
        };
        if m1 == len || version_str.get_char(m1) != '.' {
            return Err(BumpError::ParseError(String::from_str("invalid version format")));
        }
        let m2 = scan_digits(version_str, m1 + 1);
        let minor = match read_group(version_str, m1 + 1, m2, "invalid MINOR value") {
            Ok(v) => v,
            Err(e) => {
                return Err(e);
            },
        };
        if m2 == len || version_str.get_char(m2) != '.' {
            return Err(BumpError::ParseError(String::from_str("invalid version format")));
        }
        let m3 = scan_digits(version_str, m2 + 1);
        let patch = match read_group(version_str, m2 + 1, m3, "invalid PATCH value") {
            Ok(v) => v,
            Err(e) => {
                return Err(e);
            },
        };
        let candidate: u32 = if len - m3 >= 3 && version_str.get_char(m3) == '-'
            && version_str.get_char(m3 + 1) == 'r' && version_str.get_char(m3 + 2) == 'c' {
            match read_group(version_str, m3 + 3, scan_digits(version_str, m3 + 3), "invalid CANDIDATE value") {
                Ok(v) => v,
                Err(e) => {
                    return Err(e);
                },
            }
        } else {
            0
        };
        let prefix = String::from_str(version_str.substring_char(0, p));
        let config = default_semver_config(prefix.clone(), major, minor, patch, candidate);
        Ok(
            Version {
                prefix,
                timestamp: None,
                version_type: VersionType::SemVer { major, minor, patch, candidate },
                path: String::from_str(path),
                config,
            },
        )
    }
}

} // verus!
