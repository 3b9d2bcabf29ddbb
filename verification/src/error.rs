//! The error value itself: a unit value per tag type.

use std::cmp::Ordering;
use std::marker::PhantomData;
use vstd::prelude::*;
use vstd::std_specs::cmp::PartialEqSpecImpl;
use vstd::std_specs::cmp::PartialOrdSpecImpl;
use vstd::std_specs::convert::FromSpec;

verus! {

/// The error of a search for a `T` that found nothing.
///
/// The value holds no data; `T` is a tag that says what was looked for. Any
/// two values of one `NotFoundError<T>` are the same value.
#[derive(Ord, Hash, Debug)]
pub struct NotFoundError<T>(pub PhantomData<T>);

impl<T> NotFoundError<T> {
    /// The one value of this type, for use in contracts.
    pub open spec fn unit() -> Self {
        NotFoundError(PhantomData)
    }

    /// Makes the error value tagged with `T`.
    pub fn new() -> (e: Self)
        ensures
            e == Self::unit(),
    {
        NotFoundError(PhantomData)
    }

    /// Always the error variant: the error value tagged with `T`, converted
    /// into the caller's error type `E`.
    pub fn result<E: From<Self>>() -> (r: Result<T, E>)
        ensures
            r is Err,
            call_ensures(E::from, (Self::unit(),), r->Err_0),
            E::obeys_from_spec() ==> r == Err::<T, E>(E::from_spec(Self::unit())),
    {
        Err(E::from(Self::new()))
    }
}

impl<T> Clone for NotFoundError<T> {
    fn clone(&self) -> (e: Self)
        ensures
            e == *self,
    {
        NotFoundError(PhantomData)
    }
}

impl<T> Copy for NotFoundError<T> {

}

impl<T> Default for NotFoundError<T> {
    fn default() -> (e: Self)
        ensures
            e == Self::unit(),
    {
        Self::new()
    }
}

/// `==` holds of any two values: there is nothing in them to differ.
impl<T> PartialEq for NotFoundError<T> {
    fn eq(&self, other: &Self) -> (r: bool) {
        true
    }
}

impl<T> Eq for NotFoundError<T> {

}

impl<T> PartialEqSpecImpl for NotFoundError<T> {
    open spec fn obeys_eq_spec() -> bool {
        true
    }

    open spec fn eq_spec(&self, other: &Self) -> bool {
        true
    }
}

/// The order is the trivial one: any two values compare as equal.
impl<T> PartialOrd for NotFoundError<T> {
    fn partial_cmp(&self, other: &Self) -> (r: Option<Ordering>) {
        Some(Ordering::Equal)
    }
}

impl<T> PartialOrdSpecImpl for NotFoundError<T> {
    open spec fn obeys_partial_cmp_spec() -> bool {
        true
    }

    open spec fn partial_cmp_spec(&self, other: &Self) -> Option<Ordering> {
        Some(Ordering::Equal)
    }
}

/// The text of the error for a thing called `name`: the name, a space, and
/// the words "not found".
pub open spec fn not_found_text(name: Seq<char>) -> Seq<char> {
    name + " not found"@
}

impl<T> NotFoundError<T> {
    /// Writes the text of this error: `name`, then " not found".
    ///
    /// The caller says what `T` is called; with the full name of the type as
    /// `name`, this is the text that the error is printed with.
    pub fn describe(&self, name: &str) -> (text: String)
        ensures
            text@ == not_found_text(name@),
    {
        String::from_str(name).concat(" not found")
    }
}

} // verus!
