//! The trait that keeps [`AsStr`](super::AsStr) to the types of this crate.
use super::validated::Validated;
use super::AsStr;
use vstd::prelude::*;

verus! {

/// A type that this crate lets stand where it asks for text.
pub trait Sealed {

}

impl<'a> Sealed for &'a str {

}

impl Sealed for String {

}

impl<T: AsStr, const D: bool, const Q: bool, const O: bool> Sealed for Validated<T, D, Q, O> {

}

} // verus!
