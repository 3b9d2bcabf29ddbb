//! A typed "not found" error and helpers that turn an absent value into it.
//!
//! [`NotFoundError<T>`] carries no data: the type parameter alone says what
//! kind of thing was missing. [`require`] and the [`Require`] extension turn
//! an `Option<T>` into a `Result<T, NotFoundError<T>>`; [`not_found`] and the
//! [`OkOrNotFound`] extension do the same under a tag chosen by the caller;
//! [`locate`] searches an iterator for the first item that a predicate accepts.

pub mod convert;
pub mod error;
pub mod laws;
pub mod locate;

pub use crate::convert::not_found;
pub use crate::convert::require;
pub use crate::convert::OkOrNotFound;
pub use crate::convert::Require;
pub use crate::error::NotFoundError;
pub use crate::locate::locate;
