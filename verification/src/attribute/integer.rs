//! Attributes whose value is one integer.
use crate::attribute::{
    encode_type_length, encoded, ensure_space, space_fault, tlv, Attribute, DecodeAttribute,
    EncodeAttribute, Type,
};
use crate::error::StunError;
use crate::header::TransactionId;
use crate::parse::attribute::tl_seq;
use crate::wire::{be32, be32_seq, be64, be64_seq, copy_into, u32_be_bytes, u32_from_be, u64_be_bytes, u64_from_be, zeros};
use vstd::array::array_fill_for_copy_types;
use vstd::prelude::*;

verus! {

/// Writes an attribute whose value is the `N` bytes of an integer.
pub fn encode_integer<'a, const N: usize>(attr: Type, dst: &'a mut [u8], value: &[u8; N]) -> (r:
    Result<&'a mut [u8], StunError>)
    requires
        N < 65,
        N % 4 == 0,
    ensures
        match r {
            Ok(rest) => encoded(
                attr,
                value@,
                space_fault(4 + N, N as u16, old(dst)@.len() as int),
                old(dst)@,
                final(dst)@,
                Ok((rest@, final(rest)@)),
            ),
            Err(e) => encoded(
                attr,
                value@,
                space_fault(4 + N, N as u16, old(dst)@.len() as int),
                old(dst)@,
                final(dst)@,
                Err(e),
            ),
        },
{
    match ensure_space(4 + N, N as u16, dst.len()) {
        Ok(()) => {},
        Err(e) => {
            return Err(e);
        },
    }
    let (tlv, rest) = dst.split_at_mut(4 + N);
    let v = encode_type_length(attr, N as u16, tlv);
    copy_into(v, value.as_slice());
    proof {
        assert(zeros(0) =~= Seq::<u8>::empty());
        assert(crate::attribute::tlv(attr, value@) =~= tl_seq(attr, N as u16) + value@);
    }
    Ok(rest)
}

/// What reading the `n` bytes of an integer from `src` gives: the bytes, where
/// there are `n` of them.
pub open spec fn decoded_integer(n: nat, src: Seq<u8>) -> Result<Seq<u8>, StunError> {
    if src.len() == n {
        Ok(src)
    } else {
        Err(
            StunError::IntegerLenMismatch {
                expected: (n % 0x1_0000) as u16,
                actual: (src.len() % 0x1_0000) as u16,
            },
        )
    }
}

/// Reads the `N` bytes of an integer.
pub fn decode_integer<const N: usize>(src: &[u8]) -> (r: Result<[u8; N], StunError>)
    ensures
        match r {
            Ok(bytes) => decoded_integer(N as nat, src@) == Ok::<Seq<u8>, StunError>(bytes@),
            Err(e) => decoded_integer(N as nat, src@) == Err::<Seq<u8>, StunError>(e),
        },
{
    if src.len() != N {
        return Err(
            StunError::IntegerLenMismatch {
                expected: (N % 0x1_0000) as u16,
                actual: (src.len() % 0x1_0000) as u16,
            },
        );
    }
    let mut bytes: [u8; N] = array_fill_for_copy_types(0u8);
    let mut i: usize = 0;
    while i < N
        invariant
            i <= N,
            src@.len() == N,
            forall|j: int| 0 <= j < i ==> bytes@[j] == src@[j],
        decreases N - i,
    {
        bytes[i] = src[i];
        i += 1;
    }
    assert(bytes@ =~= src@);
    Ok(bytes)
}

/// An attribute of type `CODE` whose value is a 32-bit integer.
#[derive(Debug, Clone, Copy, PartialEq, Eq, Hash, PartialOrd, Ord)]
pub struct U32Attribute<const CODE: u16>(pub u32);

/// An attribute of type `CODE` whose value is a 64-bit integer.
#[derive(Debug, Clone, Copy, PartialEq, Eq, Hash, PartialOrd, Ord)]
pub struct U64Attribute<const CODE: u16>(pub u64);

pub type Fingerprint = U32Attribute<0x8028>;

pub type Priority = U32Attribute<0x0024>;

pub type Lifetime = U32Attribute<0x000D>;

pub type RequestedTransport = U32Attribute<0x0019>;

pub type IceControlled = U64Attribute<0x8029>;

pub type IceControlling = U64Attribute<0x802A>;

impl<const CODE: u16> U32Attribute<CODE> {
    pub fn new(value: u32) -> (a: Self)
        ensures
            a.0 == value,
    {
        Self(value)
    }

    pub fn value(&self) -> (v: u32)
        ensures
            v == self.0,
    {
        self.0
    }

    /// The type of these attributes.
    pub fn attr_type() -> (t: Type)
        ensures
            t == Type(CODE),
    {
        Type(CODE)
    }
}

impl<const CODE: u16> Attribute for U32Attribute<CODE> {
    open spec fn spec_type(&self) -> Type {
        Type(CODE)
    }

    fn attribute_type(&self) -> (t: Type) {
        Type(CODE)
    }
}

impl<const CODE: u16> EncodeAttribute for U32Attribute<CODE> {
    open spec fn wire_value(&self, transaction_id: TransactionId) -> Seq<u8> {
        be32_seq(self.0)
    }

    open spec fn fault(&self, avail: nat) -> Option<StunError> {
        space_fault(8, 4, avail as int)
    }

    fn encoded_value_len(&self) -> (len: u16) {
        4
    }

    fn encode<'a>(&self, dst: &'a mut [u8], transaction_id: &TransactionId) -> (r: Result<
        &'a mut [u8],
        StunError,
    >) {
        let bytes = u32_be_bytes(self.0);
        encode_integer::<4>(Type(CODE), dst, &bytes)
    }
}

impl<'d, const CODE: u16> DecodeAttribute<'d> for U32Attribute<CODE> {
    open spec fn decoded(attr: Type, src: Seq<u8>, transaction_id: TransactionId, r: Result<
        Self,
        StunError,
    >) -> bool {
        match r {
            Ok(a) => src.len() == 4 && a.0 == be32(src[0], src[1], src[2], src[3]),
            Err(e) => decoded_integer(4, src) == Err::<Seq<u8>, StunError>(e),
        }
    }

    fn decode(attr: Type, src: &'d [u8], transaction_id: &TransactionId) -> (r: Result<
        Self,
        StunError,
    >) {
        match decode_integer::<4>(src) {
            Ok(b) => Ok(Self(u32_from_be(b[0], b[1], b[2], b[3]))),
            Err(e) => Err(e),
        }
    }
}

impl<const CODE: u16> U64Attribute<CODE> {
    pub fn new(value: u64) -> (a: Self)
        ensures
            a.0 == value,
    {
        Self(value)
    }

    pub fn value(&self) -> (v: u64)
        ensures
            v == self.0,
    {
        self.0
    }

    /// The type of these attributes.
    pub fn attr_type() -> (t: Type)
        ensures
            t == Type(CODE),
    {
        Type(CODE)
    }
}

impl<const CODE: u16> Attribute for U64Attribute<CODE> {
    open spec fn spec_type(&self) -> Type {
        Type(CODE)
    }

    fn attribute_type(&self) -> (t: Type) {
        Type(CODE)
    }
}

impl<const CODE: u16> EncodeAttribute for U64Attribute<CODE> {
    open spec fn wire_value(&self, transaction_id: TransactionId) -> Seq<u8> {
        be64_seq(self.0)
    }

    open spec fn fault(&self, avail: nat) -> Option<StunError> {
        space_fault(12, 8, avail as int)
    }

    fn encoded_value_len(&self) -> (len: u16) {
        8
    }

    fn encode<'a>(&self, dst: &'a mut [u8], transaction_id: &TransactionId) -> (r: Result<
        &'a mut [u8],
        StunError,
    >) {
        let bytes = u64_be_bytes(self.0);
        encode_integer::<8>(Type(CODE), dst, &bytes)
    }
}

impl<'d, const CODE: u16> DecodeAttribute<'d> for U64Attribute<CODE> {
    open spec fn decoded(attr: Type, src: Seq<u8>, transaction_id: TransactionId, r: Result<
        Self,
        StunError,
    >) -> bool {
        match r {
            Ok(a) => src.len() == 8 && a.0 == be64(src),
            Err(e) => decoded_integer(8, src) == Err::<Seq<u8>, StunError>(e),
        }
    }

    fn decode(attr: Type, src: &'d [u8], transaction_id: &TransactionId) -> (r: Result<
        Self,
        StunError,
    >) {
        match decode_integer::<8>(src) {
            Ok(b) => Ok(Self(u64_from_be(&b))),
            Err(e) => Err(e),
        }
    }
}

} // verus!
