//! What an assertion on a check says when the check has failed.

use crate::failure::ErrBoxCheckFailure;
use crate::failure::FailureView;
use vstd::prelude::*;

verus! {

/// The message of an assertion that failed for `failure`: the words
/// `verify() failed: `, then the text of the failure.
pub open spec fn assertion_text(failure: FailureView) -> Seq<char> {
    "verify() failed: "@ + failure.rendered()
}

/// The message with which an assertion gives up on `failure`.
pub fn assertion_message(failure: &ErrBoxCheckFailure) -> (message: String)
    ensures
        message@ == assertion_text(failure@),
{
    let mut message = String::from_str("verify() failed: ");
    let text = failure.to_string();
    message.append(text.as_str());
    message
}

/// What an assertion does with the verdict of a check: nothing for `Ok`;
/// for every failure alike it gives up, with the message returned here.
pub fn abort_message(verdict: &Result<(), ErrBoxCheckFailure>) -> (message: Option<String>)
    ensures
        verdict is Ok <==> message is None,
        verdict matches Err(failure) ==> message matches Some(text) && text@ == assertion_text(
            failure@,
        ),
{
    match verdict {
        Ok(_) => None,
        Err(failure) => Some(assertion_message(failure)),
    }
}

} // verus!
