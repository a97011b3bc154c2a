//! The check of a MIME type, which the HTTP client's multipart support makes.

use vstd::prelude::*;

verus! {

/// What `reqwest::multipart::Part::mime_str` answers to a MIME type: `Ok`
/// where it takes the type, else the text of its error.
pub uninterp spec fn mime_verdict(mime: Seq<char>) -> Result<(), Seq<char>>;

/// Asks `reqwest::multipart::Part::mime_str` whether it takes `mime` as the
/// type of a part. The answer depends on the characters of `mime` alone: the
/// call parses them and touches nothing else. A refusal comes back as the
/// text of the error that the call returned.
#[verifier::external_body]
pub(crate) fn check_mime(mime: &str) -> (verdict: Result<(), String>)
    ensures
        match verdict {
            Ok(_) => mime_verdict(mime@) is Ok,
            Err(reason) => mime_verdict(mime@) == Err::<(), Seq<char>>(reason@),
        },
{
    match reqwest::multipart::Part::text("").mime_str(mime) {
        Ok(_) => Ok(()),
        Err(error) => Err(error.to_string()),
    }
}

} // verus!
