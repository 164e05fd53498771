//! The trait that keeps the traits of this crate to the types of this crate.
use crate::header::TransactionId;
use vstd::prelude::*;

verus! {

/// A type that this crate lets stand where it asks for one of its sealed traits.
pub trait Sealed {

}

impl Sealed for () {

}

impl<'a> Sealed for &'a TransactionId {

}

impl<'a> Sealed for Option<&'a TransactionId> {

}

} // verus!
