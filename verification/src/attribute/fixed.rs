//! Attributes whose value is a fixed number of bytes.
use crate::attribute::{
    declarable, encode_variable_len, encoded, space_fault, spec_total_len, Attribute,
    DecodeAttribute, EncodeAttribute, Type, MAX_VALUE_LEN,
};
use crate::error::StunError;
use crate::header::TransactionId;
use vstd::prelude::*;

verus! {

/// Writes an attribute whose value is the `N` bytes of `value`.
pub fn encode_fixed<'a, const N: usize>(attr: Type, dst: &'a mut [u8], value: &[u8; N]) -> (r:
    Result<&'a mut [u8], StunError>)
    requires
        N <= MAX_VALUE_LEN,
    ensures
        match r {
            Ok(rest) => encoded(
                attr,
                value@,
                space_fault(spec_total_len(N as int), N as u16, old(dst)@.len() as int),
                old(dst)@,
                final(dst)@,
                Ok((rest@, final(rest)@)),
            ),
            Err(e) => encoded(
                attr,
                value@,
                space_fault(spec_total_len(N as int), N as u16, old(dst)@.len() as int),
                old(dst)@,
                final(dst)@,
                Err(e),
            ),
        },
{
    proof {
        assert(declarable(value@) =~= value@);
    }
    encode_variable_len(attr, value.as_slice(), dst)
}

/// `TryFrom<&[u8]>` for `&[u8; N]`: the slice as an array, where it has `N` bytes.
#[verifier::external_body]
fn slice_as_array<const N: usize>(src: &[u8]) -> (r: Option<&[u8; N]>)
    ensures
        r is Some <==> src@.len() == N,
        r matches Some(a) ==> a@ == src@,
{
    match <&[u8; N]>::try_from(src) {
        Ok(a) => Some(a),
        Err(_) => None,
    }
}

/// Reads a value of `N` bytes.
pub fn decode_fixed<const N: usize>(src: &[u8]) -> (r: Result<&[u8; N], StunError>)
    ensures
        match r {
            Ok(a) => src@.len() == N && a@ == src@,
            Err(e) => src@.len() != N && e == StunError::FixedLenMismatch {
                expected: (N % 0x1_0000) as u16,
                actual: (src@.len() % 0x1_0000) as u16,
            },
        },
{
    match slice_as_array::<N>(src) {
        Some(a) => Ok(a),
        None => Err(
            StunError::FixedLenMismatch {
                expected: (N % 0x1_0000) as u16,
                actual: (src.len() % 0x1_0000) as u16,
            },
        ),
    }
}

/// An attribute of type `CODE` whose value is `N` bytes.
#[derive(Debug, Clone, Copy, PartialEq, Eq, Hash)]
pub struct FixedAttribute<'a, const CODE: u16, const N: usize>(pub &'a [u8; N]);

pub type UserHash<'a> = FixedAttribute<'a, 0x001E, 32>;

pub type MessageIntegrity<'a> = FixedAttribute<'a, 0x0008, 20>;

pub type MessageIntegritySha256<'a> = FixedAttribute<'a, 0x001C, 32>;

impl<'a, const CODE: u16, const N: usize> FixedAttribute<'a, CODE, N> {
    pub fn new(value: &'a [u8; N]) -> (a: Self)
        ensures
            a.0 == value,
    {
        Self(value)
    }

    pub fn value(&self) -> (v: &'a [u8; N])
        ensures
            v == self.0,
    {
        self.0
    }

    pub fn into_inner(self) -> (v: &'a [u8; N])
        ensures
            v == self.0,
    {
        self.0
    }

    /// The type of these attributes.
    pub fn attr_type() -> (t: Type)
        ensures
            t == Type(CODE),
    {
        Type(CODE)
    }
}

impl<'a, const CODE: u16, const N: usize> Attribute for FixedAttribute<'a, CODE, N> {
    open spec fn spec_type(&self) -> Type {
        Type(CODE)
    }

    fn attribute_type(&self) -> (t: Type) {
        Type(CODE)
    }
}

impl<'a, const CODE: u16, const N: usize> EncodeAttribute for FixedAttribute<'a, CODE, N> {
    open spec fn wire_value(&self, transaction_id: TransactionId) -> Seq<u8> {
        declarable(self.0@)
    }

    open spec fn fault(&self, avail: nat) -> Option<StunError> {
        space_fault(
            spec_total_len(declarable(self.0@).len() as int),
            declarable(self.0@).len() as u16,
            avail as int,
        )
    }

    fn encoded_value_len(&self) -> (len: u16) {
        (N % 0x1_0000) as u16
    }

    fn encode<'b>(&self, dst: &'b mut [u8], transaction_id: &TransactionId) -> (r: Result<
        &'b mut [u8],
        StunError,
    >) {
        encode_variable_len(Type(CODE), self.0.as_slice(), dst)
    }
}

impl<'d, const CODE: u16, const N: usize> DecodeAttribute<'d> for FixedAttribute<'d, CODE, N> {
    open spec fn decoded(attr: Type, src: Seq<u8>, transaction_id: TransactionId, r: Result<
        Self,
        StunError,
    >) -> bool {
        match r {
            Ok(a) => src.len() == N && a.0@ == src,
            Err(e) => src.len() != N && e == StunError::FixedLenMismatch {
                expected: (N % 0x1_0000) as u16,
                actual: (src.len() % 0x1_0000) as u16,
            },
        }
    }

    fn decode(attr: Type, src: &'d [u8], transaction_id: &TransactionId) -> (r: Result<
        Self,
        StunError,
    >) {
        match decode_fixed::<N>(src) {
            Ok(a) => Ok(Self(a)),
            Err(e) => Err(e),
        }
    }
}

} // verus!
