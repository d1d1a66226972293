//! The boxed error whose concrete type has been erased.

use std::error::Error;
use vstd::prelude::*;

verus! {

/// A boxed error of any type: the failure of a `Result<T, Box<dyn Error>>`.
///
/// The box is all that a value of this type holds. Verified code sees
/// nothing of it: it can only hand the box on, or ask [`downcast_ref`]
/// whether the error in it has a given type.
#[derive(Debug)]
#[verifier::external_body]
pub struct ErrBox(pub Box<dyn Error>);

/// The error in the box, if its type is `E`: a call of
/// `<dyn Error>::downcast_ref`.
///
/// No contract stands here. The standard library returns the error when its
/// type is `E` and `None` when it is not, and this crate has no way to
/// say in a contract which type an error in a box has; so callers are
/// verified for whatever comes back.
#[verifier::external_body]
pub(crate) fn downcast_ref<E: Error + 'static>(erased: &ErrBox) -> (recovered: Option<&E>) {
    erased.0.downcast_ref::<E>()
}

} // verus!
