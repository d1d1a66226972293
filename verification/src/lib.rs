//! Tests that a fallible operation failed with one specific error, when its
//! failure is a boxed error whose concrete type has been erased.
//!
//! * [`check_err_box`] takes a result and the error that it is expected to
//!   hold, and returns `Ok(())` or an [`ErrBoxCheckFailure`]: the result was
//!   `Ok`, the boxed error has another type, or it has the type and is not
//!   equal.
//! * [`equality`] compares a bare error with the same error in a box, in a
//!   box of erased type, or as the failure of a result, in both operand
//!   orders.
//! * [`assertion`] words the message of an assertion on a check that failed.
//!
//! A boxed error of erased type is an [`ErrBox`]. Whether the error in it has
//! a given type is for the standard library's downcast to say, and no
//! contract here can: what is proved of a function that takes an `ErrBox`
//! holds whatever the downcast gives. Each such function has a companion that
//! takes the outcome of the downcast in place of the box, as an
//! `Option<&E>`; the contract of the companion is exact.
//!
//! Equality between errors is always the error type's own `==`. A contract
//! names its answer twice: as an answer that `E::eq` can give, and, for a
//! type that says what its `==` computes, as `eq_spec`.

pub mod assertion;
pub mod check;
pub mod equality;
pub mod err_box;
pub mod failure;

pub use assertion::abort_message;
pub use assertion::assertion_message;
pub use check::check_downcast;
pub use check::check_err_box;
pub use err_box::ErrBox;
pub use failure::ErrBoxCheckFailure;
pub use failure::FailureView;
