//! The attributes of STUN as they come out of a message: borrowed from it.
use crate::attribute::{password, unknown, Validated};
use vstd::prelude::*;

pub use super::{
    AlternateServer, Fingerprint, MappedAddress, MessageIntegrity, MessageIntegritySha256,
    UserHash, XorMappedAddress,
};

verus! {

pub type ErrorCode<'a> = super::ErrorCode<Validated<&'a str, false, false, false>>;

pub type AlternateDomain<'a> = super::AlternateDomain<Validated<&'a str, true, false, false>>;

pub type Nonce<'a> = super::Nonce<Validated<&'a str, false, true, false>>;

pub type Software<'a> = super::Software<Validated<&'a str, false, false, false>>;

pub type Realm<'a> = super::Realm<Validated<&'a str, false, true, true>>;

pub type Username<'a> = super::Username<Validated<&'a str, false, false, true>>;

pub type PasswordAlgorithm<'a> = super::PasswordAlgorithm<&'a [u8]>;

pub type PasswordAlgorithms<'a> = super::PasswordAlgorithms<password::Parsed<'a>>;

pub type UnknownAttributes<'a> = super::UnknownAttributes<unknown::Parsed<'a>>;

} // verus!
