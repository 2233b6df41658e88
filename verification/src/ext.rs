//! The library's trusted boundary: small wrappers around outside crates and
//! std facilities whose results the surrounding verified code consumes as
//! plain values. Each wrapper's contract states only what the wrapped
//! function's source or documentation plainly shows.

use vstd::prelude::*;

verus! {

/// Relies on uuid's Uuid::new_v4 and Uuid::as_u128: a freshly drawn random
/// version-4 identifier, returned as its 128-bit big-endian value. The result
/// is random, so nothing is promised of it.
#[verifier::external_body]
pub(crate) fn fresh_id() -> u128 {
    uuid::Uuid::new_v4().as_u128()
}

/// Relies on chrono's Utc::now and DateTime::to_rfc3339: the current UTC
/// instant, rendered as RFC 3339 text. The result depends on the clock, so
/// nothing is promised of it.
#[verifier::external_body]
pub(crate) fn now_rfc3339() -> String {
    chrono::Utc::now().to_rfc3339()
}

/// Relies on dirs::home_dir: the current user's home directory, if the
/// platform reports one. The result depends on the environment, so nothing is
/// promised of it.
#[verifier::external_body]
pub(crate) fn home_dir_text() -> Option<String> {
    dirs::home_dir().map(|p| p.to_string_lossy().into_owned())
}

} // verus!
