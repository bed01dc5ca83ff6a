//! The library's laws: properties of the bump transitions and renderers
//! that hold for every record, stated once and proved here.

use vstd::prelude::*;

use crate::bump::{tag_text, BumpError, BumpType, PointType};
use crate::strutil::{dec_digits, digit_char_of};
use crate::config::Config;
use crate::version::{
    bump_rel, cal_date, cal_roll_rel, calendar_rel, candidate_next, point_next, qualified_text,
    released, render, same_period, sem_candidate, sem_triple, Version, VersionType,
};
use crate::config::{CalVerConfig, CalVerVersionSection};

verus! {

/// A minor point release always leaves `patch == 0` and `candidate == 0`,
/// and a major point release additionally leaves `minor == 0`, whatever
/// semantic-versioning state it starts from.
pub proof fn lemma_point_release_resets(v: VersionType)
    requires
        v is SemVer,
    ensures
        point_next(v, PointType::Minor) matches VersionType::SemVer { patch, candidate, .. }
            && patch == 0 && candidate == 0,
        point_next(v, PointType::Major) matches VersionType::SemVer {
            minor,
            patch,
            candidate,
            ..
        } && minor == 0 && patch == 0 && candidate == 0,
{
}

/// Starting a candidate line and then releasing it lands on exactly the
/// numeric triple the promotion produced, with the candidate counter back
/// at zero: the pair acts as one point release of the promoted component.
pub proof fn lemma_candidate_then_release(v: VersionType, policy: PointType)
    requires
        v is SemVer,
        sem_candidate(v) == 0,
    ensures
        released(candidate_next(v, policy)) == point_next(v, policy),
{
}

/// A release requested while no candidate line is open always fails with a
/// logic error and never mutates the record.
pub proof fn lemma_release_without_candidate(
    pre: Version,
    post: Version,
    r: Result<(), BumpError>,
)
    requires
        pre.config is SemVer,
        sem_candidate(pre.version_type) == 0,
        bump_rel(pre, BumpType::Release, post, r),
    ensures
        r matches Err(e) && e is LogicError,
        post == pre,
{
}

/// Two calendar rolls against the same rendering of the same day take the
/// conflict counter from zero to one and then to two, leaving the stored
/// date untouched.
pub proof fn lemma_calendar_same_day_twice(
    cv: CalVerConfig,
    today: CalVerVersionSection,
    cv1: CalVerConfig,
    r1: u32,
    cv2: CalVerConfig,
    r2: u32,
)
    requires
        same_period(cv, today),
        cal_roll_rel(cv, 0, today, cv1, r1),
        cal_roll_rel(cv1, r1, today, cv2, r2),
    ensures
        r1 == 1,
        r2 == 2,
        cv2.version == cv.version,
{
}

/// A calendar roll against a different period resets the conflict counter
/// to zero and adopts today's rendering of every declared component.
pub proof fn lemma_calendar_new_day(
    cv: CalVerConfig,
    rev: u32,
    today: CalVerVersionSection,
    cv2: CalVerConfig,
    r2: u32,
)
    requires
        !same_period(cv, today),
        cal_roll_rel(cv, rev, today, cv2, r2),
    ensures
        r2 == 0,
        cv2.version.year@ == today.year@,
        cv.format.month is Some && today.month is Some ==> opt_text(cv2.version.month)
            == opt_text(today.month),
        cv.format.day is Some && today.day is Some ==> opt_text(cv2.version.day) == opt_text(
            today.day,
        ),
{
}

/// The text of an optional string, empty when absent.
pub open spec fn opt_text(o: Option<String>) -> Seq<char> {
    match o {
        Some(s) => s@,
        None => Seq::<char>::empty(),
    }
}

/// A point bump on a semantic-versioning record, inside the counter
/// range, always succeeds; after a minor one `patch == 0` and
/// `candidate == 0`, after a major one `minor`, `patch` and `candidate`
/// are all zero; the prefix is untouched.
pub proof fn lemma_bump_point_resets(
    pre: Version,
    post: Version,
    r: Result<(), BumpError>,
    pt: PointType,
)
    requires
        pre.wf(),
        pre.config is SemVer,
        pre.bump_fits(BumpType::Point(pt)),
        bump_rel(pre, BumpType::Point(pt), post, r),
    ensures
        r is Ok,
        post.prefix == pre.prefix,
        pt is Minor ==> (post.version_type matches VersionType::SemVer { patch, candidate, .. }
            && patch == 0 && candidate == 0),
        pt is Major ==> (post.version_type matches VersionType::SemVer {
            minor,
            patch,
            candidate,
            ..
        } && minor == 0 && patch == 0 && candidate == 0),
{
}

/// Opening a candidate line on a record without one and then releasing
/// it always succeeds and lands on exactly the numeric triple the
/// promotion produced, candidate counter back at zero — one point
/// release of the promoted component, at the machine level.
pub proof fn lemma_bump_candidate_then_release(
    pre: Version,
    mid: Version,
    post: Version,
    r1: Result<(), BumpError>,
    r2: Result<(), BumpError>,
)
    requires
        pre.wf(),
        pre.config is SemVer,
        sem_candidate(pre.version_type) == 0,
        pre.bump_fits(BumpType::Candidate),
        bump_rel(pre, BumpType::Candidate, mid, r1),
        bump_rel(mid, BumpType::Release, post, r2),
    ensures
        r1 is Ok,
        r2 is Ok,
        pre.config matches Config::SemVer(cfg) && post.version_type == point_next(
            pre.version_type,
            crate::version::promo_of(cfg.candidate.promotion@),
        ),
        post.config == pre.config,
{
}

/// Two calendar rolls of a whole record against the same rendering of
/// the same day take the conflict counter from zero to one and then to
/// two, leaving the stored date untouched.
pub proof fn lemma_record_same_day_twice(
    pre: Version,
    mid: Version,
    post: Version,
    today: CalVerVersionSection,
)
    requires
        pre.wf(),
        pre.config matches Config::CalVer(cv) && same_period(cv, today),
        pre.version_type matches VersionType::CalVer { revision } && revision == 0,
        calendar_rel(pre, today, mid),
        calendar_rel(mid, today, post),
    ensures
        mid.version_type matches VersionType::CalVer { revision } && revision == 1,
        post.version_type matches VersionType::CalVer { revision } && revision == 2,
        (match (pre.config, post.config) {
            (Config::CalVer(cv), Config::CalVer(cv2)) => cv2.version == cv.version,
            _ => false,
        }),
{
}

/// A calendar roll of a whole record against a different period resets
/// the conflict counter and adopts today's rendering of every declared
/// component, dropping the undeclared ones.
pub proof fn lemma_record_new_day(pre: Version, post: Version, today: CalVerVersionSection)
    requires
        pre.wf(),
        pre.config matches Config::CalVer(cv) && !same_period(cv, today),
        calendar_rel(pre, today, post),
    ensures
        post.version_type matches VersionType::CalVer { revision } && revision == 0,
        (match (pre.config, post.config) {
            (Config::CalVer(cv), Config::CalVer(cv2)) => {
                &&& cv2.version.year@ == today.year@
                &&& (cv.format.month is Some && today.month is Some ==> opt_text(
                    cv2.version.month,
                ) == opt_text(today.month))
                &&& (cv.format.day is Some && today.day is Some ==> opt_text(cv2.version.day)
                    == opt_text(today.day))
                &&& (cv.format.month is None ==> cv2.version.month is None)
                &&& (cv.format.day is None ==> cv2.version.day is None)
            },
            _ => false,
        }),
{
}

/// The renderings for `Prefix`, `Point` and `Release` are all exactly
/// `{prefix}{major}.{minor}.{patch}` — the candidate counter never shows —
/// while the `Candidate` rendering always carries it after the configured
/// delimiter.
pub proof fn lemma_display_candidate_policy(v: Version, pt: PointType, p: String)
    requires
        v.wf(),
        v.version_type is SemVer,
    ensures
        v.version_type matches VersionType::SemVer { major, minor, patch, candidate } && {
            &&& render(v, BumpType::Point(pt)) == v.prefix@ + sem_triple(major, minor, patch)
            &&& render(v, BumpType::Release) == v.prefix@ + sem_triple(major, minor, patch)
            &&& render(v, BumpType::Prefix(p)) == v.prefix@ + sem_triple(major, minor, patch)
            &&& v.config matches Config::SemVer(cfg) && render(v, BumpType::Candidate) == v.prefix@
                + sem_triple(major, minor, patch) + cfg.candidate.delimiter@ + crate::strutil::dec_digits(
                candidate as int,
            )
        },
{
}

/// The text holds no embedded newline.
pub open spec fn line_free(s: Seq<char>) -> bool {
    forall|i: int| 0 <= i < s.len() ==> s[i] != '\n'
}

proof fn lemma_line_free_concat(a: Seq<char>, b: Seq<char>)
    requires
        line_free(a),
        line_free(b),
    ensures
        line_free(a + b),
{
    assert forall|i: int| 0 <= i < (a + b).len() implies (a + b)[i] != '\n' by {
        if i < a.len() {
            assert((a + b)[i] == a[i]);
        } else {
            assert((a + b)[i] == b[i - a.len()]);
        }
    }
}

proof fn lemma_dec_digits_line_free(n: int)
    requires
        n >= 0,
    ensures
        line_free(dec_digits(n)),
    decreases n,
{
    if n < 10 {
        assert(dec_digits(n) == seq![digit_char_of(n)]);
        assert(digit_char_of(n) != '\n');
    } else {
        lemma_dec_digits_line_free(n / 10);
        let s = dec_digits(n / 10);
        let c = digit_char_of(n % 10);
        assert forall|i: int| 0 <= i < s.push(c).len() implies s.push(c)[i] != '\n' by {
            if i < s.len() {
                assert(s.push(c)[i] == s[i]);
            } else {
                assert(s.push(c)[i] == c);
            }
        }
    }
}

proof fn lemma_sem_triple_line_free(major: u32, minor: u32, patch: u32)
    ensures
        line_free(sem_triple(major, minor, patch)),
{
    reveal_strlit(".");
    assert(line_free("."@)) by {
        assert("."@.len() == 1);
        assert("."@[0] == '.');
    }
    lemma_dec_digits_line_free(major as int);
    lemma_dec_digits_line_free(minor as int);
    lemma_dec_digits_line_free(patch as int);
    lemma_line_free_concat(dec_digits(major as int), "."@);
    lemma_line_free_concat(dec_digits(major as int) + "."@, dec_digits(minor as int));
    lemma_line_free_concat(dec_digits(major as int) + "."@ + dec_digits(minor as int), "."@);
    lemma_line_free_concat(
        dec_digits(major as int) + "."@ + dec_digits(minor as int) + "."@,
        dec_digits(patch as int),
    );
}

/// The fields a rendering draws on hold no embedded newline: the prefix,
/// the configured delimiters, and a calendar record's stored date.
pub open spec fn fields_line_free(v: Version) -> bool {
    &&& line_free(v.prefix@)
    &&& match v.config {
        Config::SemVer(cfg) => line_free(cfg.candidate.delimiter@) && line_free(
            cfg.development.delimiter@,
        ),
        Config::CalVer(cv) => {
            &&& line_free(cv.format.delimiter@)
            &&& line_free(cv.version.year@)
            &&& (match cv.version.month {
                Some(m) => line_free(m@),
                None => true,
            })
            &&& (match cv.version.day {
                Some(d) => line_free(d@),
                None => true,
            })
            &&& line_free(cv.conflict.delimiter@)
        },
    }
}

proof fn lemma_cal_date_line_free(cv: CalVerConfig)
    requires
        line_free(cv.format.delimiter@),
        line_free(cv.version.year@),
        (match cv.version.month {
            Some(m) => line_free(m@),
            None => true,
        }),
        (match cv.version.day {
            Some(d) => line_free(d@),
            None => true,
        }),
    ensures
        line_free(cal_date(cv)),
{
    let month_part = match (cv.format.month, cv.version.month) {
        (Some(_), Some(m)) => cv.format.delimiter@ + m@,
        _ => Seq::<char>::empty(),
    };
    let day_part = match (cv.format.day, cv.version.day) {
        (Some(_), Some(d)) => cv.format.delimiter@ + d@,
        _ => Seq::<char>::empty(),
    };
    assert(line_free(month_part)) by {
        match (cv.format.month, cv.version.month) {
            (Some(_), Some(m)) => {
                lemma_line_free_concat(cv.format.delimiter@, m@);
            },
            _ => {},
        }
    }
    assert(line_free(day_part)) by {
        match (cv.format.day, cv.version.day) {
            (Some(_), Some(d)) => {
                lemma_line_free_concat(cv.format.delimiter@, d@);
            },
            _ => {},
        }
    }
    lemma_line_free_concat(cv.version.year@, month_part);
    lemma_line_free_concat(cv.version.year@ + month_part, day_part);
}

/// No rendering of a record whose fields are free of embedded newlines
/// carries one: every display, base and calendar form is a single line.
pub proof fn lemma_render_single_line(v: Version, kind: BumpType)
    requires
        v.wf(),
        fields_line_free(v),
    ensures
        line_free(render(v, kind)),
{
    match (v.version_type, v.config) {
        (VersionType::SemVer { major, minor, patch, candidate }, Config::SemVer(cfg)) => {
            lemma_sem_triple_line_free(major, minor, patch);
            lemma_line_free_concat(v.prefix@, sem_triple(major, minor, patch));
            match kind {
                BumpType::Candidate => {
                    lemma_dec_digits_line_free(candidate as int);
                    lemma_line_free_concat(
                        v.prefix@ + sem_triple(major, minor, patch),
                        cfg.candidate.delimiter@,
                    );
                    lemma_line_free_concat(
                        v.prefix@ + sem_triple(major, minor, patch) + cfg.candidate.delimiter@,
                        dec_digits(candidate as int),
                    );
                },
                _ => {},
            }
        },
        (VersionType::CalVer { revision }, Config::CalVer(cv)) => {
            lemma_cal_date_line_free(cv);
            let rev_part = if revision > 0 {
                cv.conflict.delimiter@ + dec_digits(revision as int)
            } else {
                Seq::<char>::empty()
            };
            assert(line_free(rev_part)) by {
                if revision > 0 {
                    lemma_dec_digits_line_free(revision as int);
                    lemma_line_free_concat(cv.conflict.delimiter@, dec_digits(revision as int));
                }
            }
            lemma_line_free_concat(v.prefix@, cal_date(cv));
            lemma_line_free_concat(v.prefix@ + cal_date(cv), rev_part);
            assert(line_free(Seq::<char>::empty() + cal_date(cv))) by {
                lemma_line_free_concat(Seq::<char>::empty(), cal_date(cv));
            }
            lemma_line_free_concat(Seq::<char>::empty() + cal_date(cv), rev_part);
        },
        _ => {},
    }
}

/// A tag name is a single line whenever the record's fields are.
pub proof fn lemma_tag_single_line(v: Version)
    requires
        v.wf(),
        fields_line_free(v),
    ensures
        line_free(tag_text(v)),
{
    lemma_render_single_line(v, BumpType::Candidate);
    lemma_render_single_line(v, BumpType::Release);
    lemma_render_single_line(v, BumpType::Calendar);
}

/// A fully-qualified build string is a single line whenever the record's
/// fields and the development suffix are.
pub proof fn lemma_qualified_single_line(
    v: Version,
    tagged: bool,
    suffix: Option<Seq<char>>,
)
    requires
        v.wf(),
        fields_line_free(v),
        (suffix matches Some(x) ==> line_free(x)),
    ensures
        line_free(qualified_text(v, tagged, suffix)),
{
    lemma_render_single_line(v, BumpType::Candidate);
    lemma_render_single_line(v, BumpType::Release);
    lemma_render_single_line(v, BumpType::Calendar);
    match (v.version_type, v.config) {
        (VersionType::SemVer { candidate, .. }, Config::SemVer(cfg)) => {
            let base = if candidate > 0 {
                render(v, BumpType::Candidate)
            } else {
                render(v, BumpType::Release)
            };
            if !tagged {
                match suffix {
                    Some(x) => {
                        lemma_line_free_concat(base, cfg.development.delimiter@);
                        lemma_line_free_concat(base + cfg.development.delimiter@, x);
                    },
                    None => {},
                }
            }
        },
        _ => {},
    }
}

} // verus!
