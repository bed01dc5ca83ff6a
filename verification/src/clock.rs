//! The one place this crate consults the clock.

use std::fmt::Write;
use vstd::prelude::*;

verus! {

/// Relies on `chrono::Utc::now` and `DateTime::format`: renders the current
/// UTC time through the given strftime-like pattern. The result depends on
/// the moment of the call, so nothing is promised of it; an unknown format
/// specifier yields a partial or empty string rather than a panic. One
/// caveat stands: `Utc::now` itself aborts on a system clock set before the
/// Unix epoch, an environment failure on a par with exhausted memory.
#[verifier::external_body]
pub(crate) fn now_formatted(fmt: &str) -> String {
    let mut out = String::new();
    let _ = write!(out, "{}", chrono::Utc::now().format(fmt));
    out
}

} // verus!
