//! What holds of the conversions as a whole, stated over the functions that
//! their contracts use.

use crate::convert::required;
use crate::convert::required_as;
use crate::convert::OkOrNotFound;
use crate::convert::Require;
use crate::error::NotFoundError;
use std::cmp::Ordering;
use vstd::prelude::*;
use vstd::std_specs::cmp::PartialEqSpec;
use vstd::std_specs::cmp::PartialOrdSpec;

verus! {

/// Any two error values with the same tag are the same value, wherever they
/// were made: each is the unit value, `==` holds of them, and they compare as
/// equal.
pub proof fn lemma_errors_are_equal<T>(a: NotFoundError<T>, b: NotFoundError<T>)
    ensures
        a == b,
        a == NotFoundError::<T>::unit(),
        a.eq_spec(&b),
        a.partial_cmp_spec(&b) == Some(Ordering::Equal),
{
}

/// A present value is required as itself.
pub proof fn lemma_present_is_ok<T>(v: T)
    ensures
        required(Some(v)) == Ok::<T, NotFoundError<T>>(v),
{
}

/// An absent value is required as the error tagged with its type.
pub proof fn lemma_absent_is_not_found<T>()
    ensures
        required(None::<T>) == Err::<T, NotFoundError<T>>(NotFoundError::<T>::unit()),
{
}

/// The method form and the function form of `require` agree on every
/// optional value.
pub proof fn lemma_method_agrees_with_function<T>(option: Option<T>)
    ensures
        required(Require::as_option(option)) == required(option),
{
}

/// Under any tag `B` the outcome succeeds exactly when it does under the
/// value's own type, and with the same value; where it fails, the error is
/// the one tagged `B`.
pub proof fn lemma_tag_is_independent<T, B>(option: Option<T>)
    ensures
        required_as::<T, B>(OkOrNotFound::to_option(option)) is Ok <==> required(option) is Ok,
        required_as::<T, B>(OkOrNotFound::to_option(option)) is Ok ==> required_as::<T, B>(
            OkOrNotFound::to_option(option),
        )->Ok_0 == required(option)->Ok_0,
        option is None ==> required_as::<T, B>(OkOrNotFound::to_option(option)) == Err::<
            T,
            NotFoundError<B>,
        >(NotFoundError::<B>::unit()),
{
}

/// Requiring equal optional values gives equal results: the outcome depends
/// on the input alone.
pub proof fn lemma_require_is_repeatable<T>(
    first: Option<T>,
    second: Option<T>,
    first_result: Result<T, NotFoundError<T>>,
    second_result: Result<T, NotFoundError<T>>,
)
    requires
        first == second,
        first_result == required(first),
        second_result == required(second),
    ensures
        first_result == second_result,
{
}

} // verus!
