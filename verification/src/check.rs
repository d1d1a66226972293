//! The check of a result against the error that it is expected to hold.

use crate::equality::eq_bare;
use crate::equality::own_eq_gives;
use crate::err_box::downcast_ref;
use crate::err_box::ErrBox;
use crate::failure::ErrBoxCheckFailure;
use std::error::Error;
use std::fmt::Display;
use vstd::prelude::*;
use vstd::std_specs::cmp::PartialEqSpec;
use vstd::string::to_string_from_display_ensures;

verus! {

/// Whether `text` is what `value` writes of itself through `Display`.
pub open spec fn renders<E: Display>(value: &E, text: String) -> bool {
    to_string_from_display_ensures::<E>(value, text)
}

/// Whether `verdict` is the outcome of the check, for a result of which
/// `outcome` tells what the downcast of its error gave.
pub open spec fn check_gives<T, E: PartialEq + Display>(
    outcome: Result<T, Option<&E>>,
    expected_err: &E,
    verdict: Result<(), ErrBoxCheckFailure>,
) -> bool {
    match outcome {
        Ok(_) => verdict == Err::<(), _>(ErrBoxCheckFailure::ResultIsNotErr),
        Err(None) => verdict == Err::<(), _>(ErrBoxCheckFailure::DowncastFailed),
        Err(Some(actual_err)) => match verdict {
            Ok(_) => own_eq_gives(expected_err, actual_err, true),
            Err(ErrBoxCheckFailure::NotEqual { expected, actual }) => {
                &&& own_eq_gives(expected_err, actual_err, false)
                &&& renders(expected_err, expected)
                &&& renders(actual_err, actual)
            },
            Err(_) => false,
        },
    }
}

/// Whether the check passes: the result is `Err`, the downcast gave an
/// error, and the expected error equals it by the type's own equality.
pub open spec fn check_passes<T, E: PartialEq>(
    outcome: Result<T, Option<&E>>,
    expected_err: &E,
) -> bool {
    outcome matches Err(Some(actual_err)) && expected_err.eq_spec(actual_err)
}

/// The check, from what the downcast gave: decides in this order whether
/// the result is `Err`, whether the downcast of its boxed error to the type
/// of `expected_err` gave an error, and whether `expected_err` equals that
/// error. The first test that fails names the failure; the two errors are
/// written out only where the last one fails.
pub fn check_downcast<T, E: PartialEq + Display>(
    outcome: Result<T, Option<&E>>,
    expected_err: E,
) -> (verdict: Result<(), ErrBoxCheckFailure>)
    ensures
        check_gives(outcome, &expected_err, verdict),
        E::obeys_eq_spec() ==> (verdict is Ok <==> check_passes(outcome, &expected_err)),
{
    match outcome {
        Ok(_) => Err(ErrBoxCheckFailure::ResultIsNotErr),
        Err(None) => Err(ErrBoxCheckFailure::DowncastFailed),
        Err(Some(actual_err)) => {
            if eq_bare(&expected_err, actual_err) {
                Ok(())
            } else {
                Err(
                    ErrBoxCheckFailure::NotEqual {
                        expected: expected_err.to_string(),
                        actual: actual_err.to_string(),
                    },
                )
            }
        },
    }
}

/// Tests whether `result` is an `Err` whose boxed error has the type of
/// `expected_err` and is equal to it: `Ok(())` if so, else the failure.
///
/// A result that is `Ok` gives `ResultIsNotErr`, and nothing else does. For
/// an `Err` the box is downcast to `E`, and the verdict is that of
/// [`check_downcast`] for what the downcast gave.
pub fn check_err_box<T, E: Error + PartialEq + 'static>(
    result: Result<T, ErrBox>,
    expected_err: E,
) -> (verdict: Result<(), ErrBoxCheckFailure>)
    ensures
        result is Ok <==> verdict == Err::<(), _>(ErrBoxCheckFailure::ResultIsNotErr),
        result is Err ==> exists|recovered: Option<&E>|
            check_gives(Err::<T, _>(recovered), &expected_err, verdict),
{
    match result {
        Ok(payload) => check_downcast(Ok(payload), expected_err),
        Err(ref erased) => check_downcast(Err::<T, _>(downcast_ref::<E>(erased)), expected_err),
    }
}

/// The order of the verdicts. `ResultIsNotErr` comes for `Ok` and for
/// nothing else, `DowncastFailed` for a downcast that failed and for nothing
/// else; `NotEqual`, like success, comes only where the downcast gave an
/// error.
pub proof fn law_verdict_order<T, E: PartialEq + Display>(
    outcome: Result<T, Option<&E>>,
    expected_err: &E,
    verdict: Result<(), ErrBoxCheckFailure>,
)
    requires
        check_gives(outcome, expected_err, verdict),
    ensures
        outcome is Ok <==> verdict == Err::<(), _>(ErrBoxCheckFailure::ResultIsNotErr),
        outcome == Err::<T, Option<&E>>(None) <==> verdict == Err::<(), _>(
            ErrBoxCheckFailure::DowncastFailed,
        ),
        verdict is Ok ==> outcome matches Err(Some(_)),
        verdict matches Err(ErrBoxCheckFailure::NotEqual { .. }) ==> outcome matches Err(Some(_)),
{
}

/// The two texts of `NotEqual` are what the expected error and the error
/// of the result write of themselves, and the text of the failure holds
/// both as they are.
pub proof fn law_not_equal_texts<T, E: PartialEq + Display>(
    outcome: Result<T, Option<&E>>,
    expected_err: &E,
    verdict: Result<(), ErrBoxCheckFailure>,
)
    requires
        check_gives(outcome, expected_err, verdict),
        verdict matches Err(ErrBoxCheckFailure::NotEqual { .. }),
    ensures
        outcome matches Err(Some(actual_err)) && verdict matches Err(
            ErrBoxCheckFailure::NotEqual { expected, actual },
        ) && renders(expected_err, expected) && renders(actual_err, actual)
            && verdict->Err_0@.rendered() == "Expected error: '"@ + expected@
            + "', actual error: '"@ + actual@ + "'."@,
{
}

} // verus!
