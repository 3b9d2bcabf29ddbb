//! From an optional value to a result whose error is a [`NotFoundError`].

use crate::error::NotFoundError;
use vstd::prelude::*;

verus! {

/// What an optional value becomes under the tag `B`: a present value is the
/// success, an absent one is the error tagged `B`.
pub open spec fn required_as<T, B>(option: Option<T>) -> Result<T, NotFoundError<B>> {
    match option {
        Some(v) => Ok(v),
        None => Err(NotFoundError::<B>::unit()),
    }
}

/// What an optional value becomes under its own type as the tag.
pub open spec fn required<T>(option: Option<T>) -> Result<T, NotFoundError<T>> {
    required_as::<T, T>(option)
}

/// Turns a present value into a success and an absent one into the error
/// tagged with the value's own type.
#[inline(always)]
pub fn require<T>(option: Option<T>) -> (r: Result<T, NotFoundError<T>>)
    ensures
        r == required(option),
        option matches Some(v) ==> r == Ok::<T, NotFoundError<T>>(v),
        option is None ==> r == Err::<T, NotFoundError<T>>(NotFoundError::<T>::unit()),
{
    option.ok_or(NotFoundError::new())
}

/// Makes the error value under a tag of the caller's choice, for a result
/// whose tag differs from the type of the value that was looked for.
#[inline(always)]
pub fn not_found<AnotherType>() -> (e: NotFoundError<AnotherType>)
    ensures
        e == NotFoundError::<AnotherType>::unit(),
{
    NotFoundError::new()
}

/// The method form of [`require`], for chaining after an expression that
/// yields an optional value.
pub trait Require {
    /// The type of the value that may be present.
    type T;

    /// The optional value that `self` stands for.
    spec fn as_option(self) -> Option<Self::T>;

    /// As [`require`] on the optional value that `self` stands for.
    fn require(self) -> (r: Result<Self::T, NotFoundError<Self::T>>)
        ensures
            r == required(self.as_option()),
    ;
}

impl<T> Require for Option<T> {
    type T = T;

    open spec fn as_option(self) -> Option<T> {
        self
    }

    #[inline(always)]
    fn require(self) -> (r: Result<T, NotFoundError<T>>) {
        self.ok_or(NotFoundError::new())
    }
}

/// As [`Require`], with the tag of the error chosen by the caller.
pub trait OkOrNotFound {
    /// The type of the value that may be present.
    type T;

    /// The optional value that `self` stands for.
    spec fn to_option(self) -> Option<Self::T>;

    /// A present value as the success, an absent one as the error tagged `B`.
    fn ok_or_not_found<B>(self) -> (r: Result<Self::T, NotFoundError<B>>)
        ensures
            r == required_as::<Self::T, B>(self.to_option()),
    ;
}

impl<T> OkOrNotFound for Option<T> {
    type T = T;

    open spec fn to_option(self) -> Option<T> {
        self
    }

    #[inline(always)]
    fn ok_or_not_found<B>(self) -> (r: Result<T, NotFoundError<B>>) {
        self.ok_or(NotFoundError::new())
    }
}

} // verus!
