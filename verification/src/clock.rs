//! The current time, which dates new tasks.
use vstd::prelude::*;

verus! {

/// The current local date and time as text.
///
/// Trusted: calls `chrono::Local::now()` and formats the result with
/// `to_string`, chrono's `Display` (the local date and time, a space, and the
/// offset).  The clock decides the result, so nothing is stated of it.
#[verifier::external_body]
pub(crate) fn local_now_text() -> (now: String) {
    chrono::Local::now().to_string()
}

} // verus!
