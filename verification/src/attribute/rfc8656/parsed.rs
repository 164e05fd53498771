//! The attributes of TURN as they come out of a message: borrowed from it.
use vstd::prelude::*;

pub use super::Lifetime;
pub use crate::attribute::integer::RequestedTransport;

verus! {

pub type Data<'a> = super::Data<&'a [u8]>;

} // verus!
