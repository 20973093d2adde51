//! What an HTTP answer of a rate-limited API leads to.
use vstd::prelude::*;

verus! {

/// The next step after an HTTP answer.
#[derive(Debug, Clone, Copy, PartialEq, Eq, Structural)]
pub enum ApiStep {
    /// Nothing to be had (not found, or the retry failed): an empty result.
    Nothing,
    /// Rate limited: wait a second and ask once more.
    RetryAfterPause,
    /// Read the body.
    ReadBody,
    /// An API error.
    Fail,
}

/// The step for an answer's status: 404 means nothing where the API
/// answers unknown items so; 429 on the first attempt means one retry; on
/// the retry anything unsuccessful means nothing; otherwise a success is
/// read and a failure is an API error.
pub open spec fn api_step(status: u16, is_retry: bool, not_found_means_nothing: bool) -> ApiStep {
    let success = 200 <= status <= 299;
    if is_retry {
        if success {
            ApiStep::ReadBody
        } else {
            ApiStep::Nothing
        }
    } else if status == 404 && not_found_means_nothing {
        ApiStep::Nothing
    } else if status == 429 {
        ApiStep::RetryAfterPause
    } else if success {
        ApiStep::ReadBody
    } else {
        ApiStep::Fail
    }
}

/// The step for an answer with the given status.
pub fn step_for(status: u16, is_retry: bool, not_found_means_nothing: bool) -> (r: ApiStep)
    ensures
        r == api_step(status, is_retry, not_found_means_nothing),
{
    let success = 200 <= status && status <= 299;
    if is_retry {
        if success {
            ApiStep::ReadBody
        } else {
            ApiStep::Nothing
        }
    } else if status == 404 && not_found_means_nothing {
        ApiStep::Nothing
    } else if status == 429 {
        ApiStep::RetryAfterPause
    } else if success {
        ApiStep::ReadBody
    } else {
        ApiStep::Fail
    }
}

/// A rate-limited request is asked again at most once: the answer to the
/// retry never leads to another pause, and a 404 of an API that answers
/// unknown items so is never an error.
pub proof fn law_single_retry(status: u16, not_found_means_nothing: bool)
    ensures
        api_step(status, true, not_found_means_nothing) != ApiStep::RetryAfterPause,
        api_step(status, true, not_found_means_nothing) != ApiStep::Fail,
        not_found_means_nothing ==> api_step(404, false, not_found_means_nothing)
            == ApiStep::Nothing,
{
}

} // verus!
