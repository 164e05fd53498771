//! Attributes without a value.
use crate::attribute::{
    encode_type_length, encoded, space_fault, tlv, Attribute, DecodeAttribute, EncodeAttribute,
    Type,
};
use crate::error::StunError;
use crate::header::TransactionId;
use crate::parse::attribute::tl_seq;
use crate::wire::zeros;
use vstd::prelude::*;

verus! {

/// Writes an attribute without a value.
pub fn encode_empty<'a>(attr: Type, dst: &'a mut [u8]) -> (r: Result<&'a mut [u8], StunError>)
    ensures
        match r {
            Ok(rest) => encoded(
                attr,
                Seq::empty(),
                space_fault(4, 0, old(dst)@.len() as int),
                old(dst)@,
                final(dst)@,
                Ok((rest@, final(rest)@)),
            ),
            Err(e) => encoded(
                attr,
                Seq::empty(),
                space_fault(4, 0, old(dst)@.len() as int),
                old(dst)@,
                final(dst)@,
                Err(e),
            ),
        },
{
    if dst.len() >= 4 {
        proof {
            assert(zeros(0) =~= Seq::<u8>::empty());
            assert(tlv(attr, Seq::empty()) =~= tl_seq(attr, 0));
        }
        Ok(encode_type_length(attr, 0, dst))
    } else {
        Err(StunError::TypeLenTooBig)
    }
}

/// Reads an attribute without a value: there must be no bytes.
pub fn decode_empty(src: &[u8]) -> (r: Result<(), StunError>)
    ensures
        match r {
            Ok(()) => src@.len() == 0,
            Err(e) => src@.len() != 0 && e == StunError::EmptyLenMismatch { actual: src@.len() as usize },
        },
{
    if src.is_empty() {
        Ok(())
    } else {
        Err(StunError::EmptyLenMismatch { actual: src.len() })
    }
}

/// An attribute of type `CODE` without a value.
#[derive(Debug, Clone, Copy, PartialEq, Eq, Hash)]
pub struct EmptyAttribute<const CODE: u16>;

pub type DontFragment = EmptyAttribute<0x001A>;

pub type UseCandidate = EmptyAttribute<0x0025>;

impl<const CODE: u16> EmptyAttribute<CODE> {
    pub fn new() -> Self {
        EmptyAttribute
    }

    /// The type of these attributes.
    pub fn attr_type() -> (t: Type)
        ensures
            t == Type(CODE),
    {
        Type(CODE)
    }
}

impl<const CODE: u16> Attribute for EmptyAttribute<CODE> {
    open spec fn spec_type(&self) -> Type {
        Type(CODE)
    }

    fn attribute_type(&self) -> (t: Type) {
        Type(CODE)
    }
}

impl<const CODE: u16> EncodeAttribute for EmptyAttribute<CODE> {
    open spec fn wire_value(&self, transaction_id: TransactionId) -> Seq<u8> {
        Seq::empty()
    }

    open spec fn fault(&self, avail: nat) -> Option<StunError> {
        space_fault(4, 0, avail as int)
    }

    fn encoded_value_len(&self) -> (len: u16) {
        0
    }

    fn encode<'a>(&self, dst: &'a mut [u8], transaction_id: &TransactionId) -> (r: Result<
        &'a mut [u8],
        StunError,
    >) {
        encode_empty(Type(CODE), dst)
    }
}

impl<'d, const CODE: u16> DecodeAttribute<'d> for EmptyAttribute<CODE> {
    open spec fn decoded(attr: Type, src: Seq<u8>, transaction_id: TransactionId, r: Result<
        Self,
        StunError,
    >) -> bool {
        match r {
            Ok(_) => src.len() == 0,
            Err(e) => src.len() != 0 && e == StunError::EmptyLenMismatch { actual: src.len() as usize },
        }
    }

    fn decode(attr: Type, src: &'d [u8], transaction_id: &TransactionId) -> (r: Result<
        Self,
        StunError,
    >) {
        match decode_empty(src) {
            Ok(()) => Ok(EmptyAttribute),
            Err(e) => Err(e),
        }
    }
}

} // verus!
