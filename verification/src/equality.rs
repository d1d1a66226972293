//! Equality between a bare error and an error held in some shape: bare, in
//! a box, in a box that has erased its type, or as the failure of a result
//! that holds one of the three.
//!
//! Every relation comes in both operand orders and leaves the verdict to the
//! error type's own `==`. A result that is `Ok` equals no error, and a box
//! whose downcast fails holds no equal error.

use crate::err_box::downcast_ref;
use crate::err_box::ErrBox;
use std::error::Error;
use vstd::prelude::*;
use vstd::std_specs::cmp::PartialEqSpec;

verus! {

/// Whether `equal` is an answer that the type's own `==` gives for
/// `left == right`. Where the type says what its `==` computes
/// (`E::obeys_eq_spec()`), the only such answer is `left.eq_spec(right)`.
pub open spec fn own_eq_gives<E: PartialEq>(left: &E, right: &E, equal: bool) -> bool {
    call_ensures(E::eq, (left, right), equal)
}

/// `value == other`, for two bare errors: the type's own equality.
pub open spec fn eq_bare_spec<E: PartialEq>(value: &E, other: &E) -> bool {
    value.eq_spec(other)
}

/// Compares two bare errors of one type, `value` on the left: the relation
/// that all the others come down to.
pub fn eq_bare<E: PartialEq>(value: &E, other: &E) -> (equal: bool)
    ensures
        own_eq_gives(value, other, equal),
        E::obeys_eq_spec() ==> equal == eq_bare_spec(value, other),
{
    value.eq(other)
}

/// `value == boxed`: the type's own equality, the bare error on the left.
pub open spec fn eq_boxed_spec<E: PartialEq>(value: &E, boxed: &Box<E>) -> bool {
    value.eq_spec(&**boxed)
}

/// `boxed == value`: the type's own equality, the boxed error on the left.
pub open spec fn boxed_eq_spec<E: PartialEq>(boxed: &Box<E>, value: &E) -> bool {
    (**boxed).eq_spec(value)
}

/// Compares a bare error with a boxed one of the same type.
pub fn eq_boxed<E: PartialEq>(value: &E, boxed: &Box<E>) -> (equal: bool)
    ensures
        own_eq_gives(value, &**boxed, equal),
        E::obeys_eq_spec() ==> equal == eq_boxed_spec(value, boxed),
{
    eq_bare(value, &**boxed)
}

/// Compares a boxed error with a bare one of the same type.
pub fn boxed_eq<E: PartialEq>(boxed: &Box<E>, value: &E) -> (equal: bool)
    ensures
        own_eq_gives(&**boxed, value, equal),
        E::obeys_eq_spec() ==> equal == boxed_eq_spec(boxed, value),
{
    eq_bare(&**boxed, value)
}

/// `value == recovered`, where `recovered` is what the downcast of a boxed
/// error to the type of `value` gave: `false` after a downcast that failed,
/// else the type's own equality, the downcast error on the left.
pub open spec fn eq_downcast_spec<E: PartialEq>(value: &E, recovered: Option<&E>) -> bool {
    match recovered {
        Some(inner) => inner.eq_spec(value),
        None => false,
    }
}

/// `recovered == value`: as [`eq_downcast_spec`], the operands exchanged.
pub open spec fn downcast_eq_spec<E: PartialEq>(recovered: Option<&E>, value: &E) -> bool {
    match recovered {
        Some(inner) => inner.eq_spec(value),
        None => false,
    }
}

/// Whether `equal` is an answer to `recovered == value`: `false` after a
/// downcast that failed, else an answer of the type's own `==` for
/// `inner == value`.
pub open spec fn downcast_eq_gives<E: PartialEq>(
    recovered: Option<&E>,
    value: &E,
    equal: bool,
) -> bool {
    match recovered {
        Some(inner) => own_eq_gives(inner, value, equal),
        None => !equal,
    }
}

/// Compares a bare error with what the downcast of a boxed error to its
/// type gave.
pub fn eq_downcast<E: PartialEq>(value: &E, recovered: Option<&E>) -> (equal: bool)
    ensures
        downcast_eq_gives(recovered, value, equal),
        E::obeys_eq_spec() ==> equal == eq_downcast_spec(value, recovered),
{
    match recovered {
        Some(inner) => eq_bare(inner, value),
        None => false,
    }
}

/// Compares what the downcast of a boxed error gave with a bare error of
/// the type that was asked for.
pub fn downcast_eq<E: PartialEq>(recovered: Option<&E>, value: &E) -> (equal: bool)
    ensures
        downcast_eq_gives(recovered, value, equal),
        E::obeys_eq_spec() ==> equal == downcast_eq_spec(recovered, value),
{
    match recovered {
        Some(inner) => eq_bare(inner, value),
        None => false,
    }
}

/// Compares a bare error with a boxed error of erased type: downcasts the
/// box to the type of `value` and compares what that gave.
pub fn eq_erased<E: Error + PartialEq + 'static>(value: &E, erased: &ErrBox) -> (equal: bool)
    ensures
        exists|recovered: Option<&E>| downcast_eq_gives(recovered, value, equal),
{
    eq_downcast(value, downcast_ref::<E>(erased))
}

/// Compares a boxed error of erased type with a bare error: downcasts the
/// box to the type of `value` and compares what that gave.
pub fn erased_eq<E: Error + PartialEq + 'static>(erased: &ErrBox, value: &E) -> (equal: bool)
    ensures
        exists|recovered: Option<&E>| downcast_eq_gives(recovered, value, equal),
{
    downcast_eq(downcast_ref::<E>(erased), value)
}

/// `value == result`, for a result that fails with a bare error: `false`
/// for `Ok`, else the type's own equality, the error of the result on the
/// left.
pub open spec fn eq_result_spec<T, E: PartialEq>(value: &E, result: &Result<T, E>) -> bool {
    match result {
        Ok(_) => false,
        Err(inner) => inner.eq_spec(value),
    }
}

/// `result == value`: as [`eq_result_spec`], the operands exchanged.
pub open spec fn result_eq_spec<T, E: PartialEq>(result: &Result<T, E>, value: &E) -> bool {
    match result {
        Ok(_) => false,
        Err(inner) => inner.eq_spec(value),
    }
}

/// Compares a bare error with a result that fails with a bare error.
pub fn eq_result<T, E: PartialEq>(value: &E, result: &Result<T, E>) -> (equal: bool)
    ensures
        result is Ok ==> !equal,
        result matches Err(inner) ==> own_eq_gives(inner, value, equal),
        E::obeys_eq_spec() ==> equal == eq_result_spec(value, result),
{
    match result {
        Ok(_) => false,
        Err(inner) => eq_bare(inner, value),
    }
}

/// Compares a result that fails with a bare error with a bare error.
pub fn result_eq<T, E: PartialEq>(result: &Result<T, E>, value: &E) -> (equal: bool)
    ensures
        result is Ok ==> !equal,
        result matches Err(inner) ==> own_eq_gives(inner, value, equal),
        E::obeys_eq_spec() ==> equal == result_eq_spec(result, value),
{
    match result {
        Ok(_) => false,
        Err(inner) => eq_bare(inner, value),
    }
}

/// `value == result`, for a result that fails with a boxed error: `false`
/// for `Ok`, else `boxed == value` for its box.
pub open spec fn eq_result_boxed_spec<T, E: PartialEq>(
    value: &E,
    result: &Result<T, Box<E>>,
) -> bool {
    match result {
        Ok(_) => false,
        Err(boxed) => boxed_eq_spec(boxed, value),
    }
}

/// `result == value`: as [`eq_result_boxed_spec`], the operands exchanged.
pub open spec fn result_boxed_eq_spec<T, E: PartialEq>(
    result: &Result<T, Box<E>>,
    value: &E,
) -> bool {
    match result {
        Ok(_) => false,
        Err(boxed) => boxed_eq_spec(boxed, value),
    }
}

/// Compares a bare error with a result that fails with a boxed error.
pub fn eq_result_boxed<T, E: PartialEq>(value: &E, result: &Result<T, Box<E>>) -> (equal: bool)
    ensures
        result is Ok ==> !equal,
        result matches Err(boxed) ==> own_eq_gives(&**boxed, value, equal),
        E::obeys_eq_spec() ==> equal == eq_result_boxed_spec(value, result),
{
    match result {
        Ok(_) => false,
        Err(boxed) => boxed_eq(boxed, value),
    }
}

/// Compares a result that fails with a boxed error with a bare error.
pub fn result_boxed_eq<T, E: PartialEq>(result: &Result<T, Box<E>>, value: &E) -> (equal: bool)
    ensures
        result is Ok ==> !equal,
        result matches Err(boxed) ==> own_eq_gives(&**boxed, value, equal),
        E::obeys_eq_spec() ==> equal == result_boxed_eq_spec(result, value),
{
    match result {
        Ok(_) => false,
        Err(boxed) => boxed_eq(boxed, value),
    }
}

/// `value == outcome`, for a result of which `outcome` tells what the
/// downcast of its boxed error gave: `false` for `Ok`, else
/// `recovered == value` for what the downcast gave.
pub open spec fn eq_result_downcast_spec<T, E: PartialEq>(
    value: &E,
    outcome: &Result<T, Option<&E>>,
) -> bool {
    match outcome {
        Ok(_) => false,
        Err(recovered) => downcast_eq_spec(*recovered, value),
    }
}

/// `outcome == value`: as [`eq_result_downcast_spec`], the operands
/// exchanged.
pub open spec fn result_downcast_eq_spec<T, E: PartialEq>(
    outcome: &Result<T, Option<&E>>,
    value: &E,
) -> bool {
    match outcome {
        Ok(_) => false,
        Err(recovered) => downcast_eq_spec(*recovered, value),
    }
}

/// Whether `equal` is an answer to `outcome == value`: `false` for `Ok`,
/// else an answer to `recovered == value` for what the downcast gave.
pub open spec fn result_downcast_eq_gives<T, E: PartialEq>(
    outcome: &Result<T, Option<&E>>,
    value: &E,
    equal: bool,
) -> bool {
    match outcome {
        Ok(_) => !equal,
        Err(recovered) => downcast_eq_gives(*recovered, value, equal),
    }
}

/// Compares a bare error with a result, where the result holds in place of
/// its boxed error what the downcast of that error gave.
pub fn eq_result_downcast<T, E: PartialEq>(
    value: &E,
    outcome: &Result<T, Option<&E>>,
) -> (equal: bool)
    ensures
        result_downcast_eq_gives(outcome, value, equal),
        E::obeys_eq_spec() ==> equal == eq_result_downcast_spec(value, outcome),
{
    match outcome {
        Ok(_) => false,
        Err(recovered) => downcast_eq(*recovered, value),
    }
}

/// Compares a result with a bare error, where the result holds in place of
/// its boxed error what the downcast of that error gave.
pub fn result_downcast_eq<T, E: PartialEq>(
    outcome: &Result<T, Option<&E>>,
    value: &E,
) -> (equal: bool)
    ensures
        result_downcast_eq_gives(outcome, value, equal),
        E::obeys_eq_spec() ==> equal == result_downcast_eq_spec(outcome, value),
{
    match outcome {
        Ok(_) => false,
        Err(recovered) => downcast_eq(*recovered, value),
    }
}

/// Compares a bare error with a result that fails with a boxed error of
/// erased type: `false` for `Ok`; else it downcasts the box to the type of
/// `value` and compares what that gave.
pub fn eq_result_erased<T, E: Error + PartialEq + 'static>(
    value: &E,
    result: &Result<T, ErrBox>,
) -> (equal: bool)
    ensures
        result is Ok ==> !equal,
        result is Err ==> exists|recovered: Option<&E>|
            downcast_eq_gives(recovered, value, equal),
{
    let outcome: Result<&T, Option<&E>> = match result {
        Ok(payload) => Ok(payload),
        Err(erased) => Err(downcast_ref::<E>(erased)),
    };
    eq_result_downcast(value, &outcome)
}

/// Compares a result that fails with a boxed error of erased type with a
/// bare error: `false` for `Ok`; else it downcasts the box to the type of
/// `value` and compares what that gave.
pub fn result_erased_eq<T, E: Error + PartialEq + 'static>(
    result: &Result<T, ErrBox>,
    value: &E,
) -> (equal: bool)
    ensures
        result is Ok ==> !equal,
        result is Err ==> exists|recovered: Option<&E>|
            downcast_eq_gives(recovered, value, equal),
{
    let outcome: Result<&T, Option<&E>> = match result {
        Ok(payload) => Ok(payload),
        Err(erased) => Err(downcast_ref::<E>(erased)),
    };
    result_downcast_eq(&outcome, value)
}

/// Symmetry, for two bare errors of which one is the other: the two orders
/// agree, whatever the type's own equality says of a value and itself.
pub proof fn law_bare_symmetry_same_value<E: PartialEq>(value: &E, other: &E)
    requires
        *other == *value,
    ensures
        eq_bare_spec(value, other) == eq_bare_spec(other, value),
{
}

/// Symmetry, for a box: `value == boxed` exactly if `boxed == value`,
/// wherever the type's own equality gives one answer for the two orders of
/// `value` and the boxed error. It does so when the box holds `value`
/// itself, and for every pair of a type whose equality is symmetric.
pub proof fn law_boxed_symmetry<E: PartialEq>(value: &E, boxed: &Box<E>)
    requires
        value.eq_spec(&**boxed) == (**boxed).eq_spec(value),
    ensures
        eq_boxed_spec(value, boxed) == boxed_eq_spec(boxed, value),
{
}

/// Symmetry, for a box that holds the value it is compared with: the two
/// orders agree, whatever the type's own equality says of the value and
/// itself.
pub proof fn law_boxed_symmetry_same_value<E: PartialEq>(value: &E, boxed: &Box<E>)
    requires
        **boxed == *value,
    ensures
        eq_boxed_spec(value, boxed) == boxed_eq_spec(boxed, value),
{
}

/// Symmetry, for a downcast error: `value == recovered` exactly if
/// `recovered == value`, for every outcome of the downcast.
pub proof fn law_downcast_symmetry<E: PartialEq>(value: &E, recovered: Option<&E>)
    ensures
        eq_downcast_spec(value, recovered) == downcast_eq_spec(recovered, value),
{
}

/// Symmetry, for a result that fails with a bare error: `value == result`
/// exactly if `result == value`.
pub proof fn law_result_symmetry<T, E: PartialEq>(value: &E, result: &Result<T, E>)
    ensures
        eq_result_spec(value, result) == result_eq_spec(result, value),
{
}

/// Symmetry, for a result that fails with a boxed error: `value == result`
/// exactly if `result == value`.
pub proof fn law_result_boxed_symmetry<T, E: PartialEq>(value: &E, result: &Result<T, Box<E>>)
    ensures
        eq_result_boxed_spec(value, result) == result_boxed_eq_spec(result, value),
{
}

/// Symmetry, for a result that fails with a boxed error of erased type,
/// whatever the downcast of that error gives: `value == outcome` exactly if
/// `outcome == value`.
pub proof fn law_result_downcast_symmetry<T, E: PartialEq>(
    value: &E,
    outcome: &Result<T, Option<&E>>,
)
    ensures
        eq_result_downcast_spec(value, outcome) == result_downcast_eq_spec(outcome, value),
{
}

/// A result that is `Ok` equals no error, in either order, whatever it
/// holds and whichever shape its failure would have.
pub proof fn law_ok_never_equals<T, E: PartialEq>(value: &E, payload: T)
    ensures
        !eq_result_spec(value, &Ok::<T, E>(payload)),
        !result_eq_spec(&Ok::<T, E>(payload), value),
        !eq_result_boxed_spec(value, &Ok::<T, Box<E>>(payload)),
        !result_boxed_eq_spec(&Ok::<T, Box<E>>(payload), value),
        !eq_result_downcast_spec(value, &Ok::<T, Option<&E>>(payload)),
        !result_downcast_eq_spec(&Ok::<T, Option<&E>>(payload), value),
        forall|equal: bool|
            result_downcast_eq_gives(&Ok::<T, Option<&E>>(payload), value, equal) ==> !equal,
{
}

/// After a downcast that failed no error is equal, in either order, be the
/// boxed error alone or the failure of a result: the only answer is `false`.
pub proof fn law_failed_downcast_never_equals<T, E: PartialEq>(value: &E)
    ensures
        !eq_downcast_spec(value, None),
        !downcast_eq_spec(None, value),
        forall|equal: bool| downcast_eq_gives(None, value, equal) ==> !equal,
        !eq_result_downcast_spec(value, &Err::<T, Option<&E>>(None)),
        !result_downcast_eq_spec(&Err::<T, Option<&E>>(None), value),
        forall|equal: bool|
            result_downcast_eq_gives(&Err::<T, Option<&E>>(None), value, equal) ==> !equal,
{
}

} // verus!
