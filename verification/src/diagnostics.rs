//! What the user is shown when setup fails.
//!
//! The notice itself is displayed by the operating system; this module only
//! decides on its text and lays it out as the terminated byte string that
//! the native call takes.

use vstd::prelude::*;
use vstd::string::StrSliceExecFns;
use vstd::string::StringSliceAdditionalSpecFns;

use crate::failure::Failure;

verus! {

/// The title of every notice.
pub const NOTICE_TITLE: &'static str = "dll";

/// The body of a notice: the hint if there is one, the name of the failure
/// kind otherwise.
pub fn notice_body(kind_name: &str, hint: Option<&str>) -> (body: String)
    ensures
        hint matches Some(text) ==> body@ == text@,
        hint is None ==> body@ == kind_name@,
{
    match hint {
        Some(text) => text.to_owned(),
        None => kind_name.to_owned(),
    }
}

/// The body of the notice shown for `failure`.
pub fn notice_text(failure: Failure) -> (body: String)
    ensures
        body@ == failure.notice(),
{
    notice_body(failure.as_str(), failure.step_hint())
}

/// The bytes of `text` followed by one zero byte, as native calls expect a
/// string.
pub fn terminated(text: &str) -> (bytes: Vec<u8>)
    ensures
        bytes@ == text.spec_bytes().push(0u8),
{
    let mut bytes = text.as_bytes_vec();
    bytes.push(0u8);
    bytes
}

} // verus!
