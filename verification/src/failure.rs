//! The reasons for which a check of a boxed error fails, and their text.

use vstd::prelude::*;

verus! {

/// Unsuccessful outcome of a check of a result against an expected error.
#[derive(Debug, Clone, PartialEq, Eq, PartialOrd, Ord, Hash)]
pub enum ErrBoxCheckFailure {
    /// The tested result is `Ok` instead of `Err`.
    ResultIsNotErr,
    /// The boxed error cannot be downcast to the type of the expected error.
    DowncastFailed,
    /// The boxed error has the expected type, and the type's own equality
    /// tells it from the expected error. The fields hold the text of each.
    NotEqual { expected: String, actual: String },
}

/// What an [`ErrBoxCheckFailure`] is to a contract: the same three cases,
/// with the two texts as sequences of characters.
pub enum FailureView {
    ResultIsNotErr,
    DowncastFailed,
    NotEqual { expected: Seq<char>, actual: Seq<char> },
}

impl View for ErrBoxCheckFailure {
    type V = FailureView;

    open spec fn view(&self) -> FailureView {
        match self {
            ErrBoxCheckFailure::ResultIsNotErr => FailureView::ResultIsNotErr,
            ErrBoxCheckFailure::DowncastFailed => FailureView::DowncastFailed,
            ErrBoxCheckFailure::NotEqual { expected, actual } => FailureView::NotEqual {
                expected: expected@,
                actual: actual@,
            },
        }
    }
}

impl FailureView {
    /// The text of a failure. The two texts of `NotEqual` stand in it as they
    /// are, between single quotes; no character of them is escaped.
    pub open spec fn rendered(self) -> Seq<char> {
        match self {
            FailureView::ResultIsNotErr => "The result is not Err."@,
            FailureView::DowncastFailed =>
                "The boxed error cannot be downcast to the expected type."@,
            FailureView::NotEqual { expected, actual } =>
                "Expected error: '"@ + expected + "', actual error: '"@ + actual + "'."@,
        }
    }
}

impl ErrBoxCheckFailure {
    /// The text of this failure.
    pub fn to_string(&self) -> (text: String)
        ensures
            text@ == self@.rendered(),
    {
        match self {
            ErrBoxCheckFailure::ResultIsNotErr => String::from_str("The result is not Err."),
            ErrBoxCheckFailure::DowncastFailed => String::from_str(
                "The boxed error cannot be downcast to the expected type.",
            ),
            ErrBoxCheckFailure::NotEqual { expected, actual } => {
                let mut text = String::from_str("Expected error: '");
                text.append(expected.as_str());
                text.append("', actual error: '");
                text.append(actual.as_str());
                text.append("'.");
                text
            },
        }
    }
}

} // verus!
