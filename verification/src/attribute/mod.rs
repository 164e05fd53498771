//! Attributes: what every kind has in common, and the kinds themselves.
use crate::error::StunError;
use crate::header::TransactionId;
use crate::parse::attribute::{padding_of, tl_seq};
use crate::parse::RawAttribute;
use crate::wire::{copy_into, fill_zero, zeros};
use vstd::prelude::*;

pub mod addr;
pub mod attr_enum;
pub mod change_request;
pub mod data;
pub mod empty;
pub mod error_code;
pub mod fixed;
pub mod integer;
mod kind;
pub mod password;
pub mod rfc5780;
pub mod rfc8445;
pub mod rfc8489;
pub mod rfc8656;
mod sealed;
pub mod string;
pub mod unknown;

pub use attr_enum::AnyAttribute;
pub use kind::Type;
pub use rfc8445 as ice;
pub use rfc8489 as stun;
pub use rfc8656 as turn;
pub use string::{AsStr, Validated};
pub use unknown::UnknownAttribute;

verus! {

/// The longest value that an attribute can carry: with its type, length and padding
/// it must fit the 16-bit length of the message header.
pub const MAX_VALUE_LEN: usize = 0xFFFF - 3 - 4;

/// The number of bytes that an attribute with a value of `len` bytes takes.
pub open spec fn spec_total_len(len: int) -> int {
    4 + len + padding_of(len)
}

/// An attribute on the wire: type, length, value, and zeros up to a multiple of 4.
pub open spec fn tlv(t: Type, value: Seq<u8>) -> Seq<u8> {
    tl_seq(t, value.len() as u16) + value + zeros(padding_of(value.len() as int) as nat)
}

/// The fault in encoding `total_len` bytes, of them `len` of value, into `avail`
/// bytes: none where they fit; else whether type and length fit.
pub open spec fn space_fault(total_len: int, len: u16, avail: int) -> Option<StunError> {
    if avail >= total_len {
        None
    } else if avail >= 4 {
        Some(StunError::BufferTooSmallForValue { rem: (avail % 0x1_0000) as u16, len })
    } else {
        Some(StunError::TypeLenTooBig)
    }
}

/// What encoding into `dst` has done, where `fault` says whether it must fail and
/// `value` is what it writes where it succeeds: on success `dst` starts with the
/// attribute and `rest` is what follows it; on failure `dst` is as it was.
pub open spec fn encoded(
    t: Type,
    value: Seq<u8>,
    fault: Option<StunError>,
    before: Seq<u8>,
    after: Seq<u8>,
    r: Result<(Seq<u8>, Seq<u8>), StunError>,
) -> bool {
    match r {
        Ok((rest, rest_after)) => {
            &&& fault is None
            &&& tlv(t, value).len() <= before.len()
            &&& rest == before.skip(tlv(t, value).len() as int)
            &&& after == tlv(t, value) + rest_after
        },
        Err(e) => fault == Some(e) && after == before,
    }
}

/// What every attribute has: its type.
pub trait Attribute {
    /// The type of this attribute.
    spec fn spec_type(&self) -> Type;

    fn attribute_type(&self) -> (t: Type)
        ensures
            t == self.spec_type(),
    ;
}

/// An attribute that can be written.
pub trait EncodeAttribute: Attribute {
    /// The value as it is written for a message with the given transaction id,
    /// padding left out.
    spec fn wire_value(&self, transaction_id: TransactionId) -> Seq<u8>;

    /// The error that encoding into `avail` bytes gives, `None` where it succeeds.
    spec fn fault(&self, avail: nat) -> Option<StunError>;

    /// The length of the value as it is written.
    fn encoded_value_len(&self) -> (len: u16)
        ensures
            forall|t: TransactionId| len == (#[trigger] self.wire_value(t)).len(),
    ;

    /// The number of bytes that the attribute takes when written.
    fn encoded_len(&self) -> (n: usize)
        ensures
            forall|t: TransactionId| n == spec_total_len((#[trigger] self.wire_value(t)).len() as int),
    {
        total_len(self.encoded_value_len())
    }

    /// Writes the attribute at the start of `dst` and returns what is left of `dst`
    /// after it.
    fn encode<'a>(&self, dst: &'a mut [u8], transaction_id: &TransactionId) -> (r: Result<
        &'a mut [u8],
        StunError,
    >)
        ensures
            match r {
                Ok(rest) => encoded(
                    self.spec_type(),
                    self.wire_value(*transaction_id),
                    self.fault(old(dst)@.len()),
                    old(dst)@,
                    final(dst)@,
                    Ok((rest@, final(rest)@)),
                ),
                Err(e) => encoded(
                    self.spec_type(),
                    self.wire_value(*transaction_id),
                    self.fault(old(dst)@.len()),
                    old(dst)@,
                    final(dst)@,
                    Err(e),
                ),
            },
    ;
}

/// An attribute that can be read.
pub trait DecodeAttribute<'d>: Attribute + Sized {
    /// Whether `r` is what decoding gives for the value `src` of an attribute of
    /// type `attr`, in a message with the given transaction id.
    spec fn decoded(attr: Type, src: Seq<u8>, transaction_id: TransactionId, r: Result<
        Self,
        StunError,
    >) -> bool;

    /// Reads the attribute from its value: the declared bytes, without type, length
    /// or padding.
    fn decode(attr: Type, src: &'d [u8], transaction_id: &TransactionId) -> (r: Result<
        Self,
        StunError,
    >)
        ensures
            Self::decoded(attr, src@, *transaction_id, r),
    ;
}

/// Something that holds bytes.
pub trait AsBytes {
    /// The bytes that are held.
    spec fn bytes(&self) -> Seq<u8>;

    fn as_bytes(&self) -> (b: &[u8])
        ensures
            b@ == self.bytes(),
    ;
}

impl<'a> AsBytes for &'a [u8] {
    open spec fn bytes(&self) -> Seq<u8> {
        self@
    }

    fn as_bytes(&self) -> (b: &[u8]) {
        self
    }
}

impl AsBytes for Vec<u8> {
    open spec fn bytes(&self) -> Seq<u8> {
        self@
    }

    fn as_bytes(&self) -> (b: &[u8]) {
        self.as_slice()
    }
}

/// What is written is read back: where an attribute with a value that a 16-bit
/// length can declare stands at the start of a buffer that a 16-bit offset can
/// address, reading at the start finds it, its value after type and length.
pub proof fn lemma_read_written(t: Type, value: Seq<u8>, rest: Seq<u8>)
    requires
        tlv(t, value).len() + rest.len() <= 0xFFFF,
    ensures
        crate::parse::attribute::read_at(tlv(t, value) + rest, 0) == Ok::<RawAttribute, StunError>(
            RawAttribute {
                attr: t,
                len: value.len() as u16,
                off: 4,
                pad: padding_of(value.len() as int) as u16,
            },
        ),
        (tlv(t, value) + rest).subrange(4, 4 + value.len() as int) == value,
        spec_total_len(value.len() as int) == tlv(t, value).len(),
{
    let all = tlv(t, value) + rest;
    let len = value.len() as u16;
    assert(tl_seq(t, len).len() == 4);
    assert(all[0] == crate::wire::be16_seq(t.0)[0] && all[1] == crate::wire::be16_seq(t.0)[1]);
    assert(all[2] == crate::wire::be16_seq(len)[0] && all[3] == crate::wire::be16_seq(len)[1]);
    assert(all.subrange(4, 4 + value.len() as int) =~= value);
}

/// The part of `src` that a 16-bit length can declare.
pub open spec fn declarable(src: Seq<u8>) -> Seq<u8> {
    src.take((src.len() % 0x1_0000) as int)
}

/// Writes an attribute whose value is the bytes of `src`, cut to what a 16-bit
/// length can declare.
pub fn encode_variable_len<'a>(attr: Type, src: &[u8], dst: &'a mut [u8]) -> (r: Result<
    &'a mut [u8],
    StunError,
>)
    ensures
        match r {
            Ok(rest) => encoded(
                attr,
                declarable(src@),
                space_fault(
                    spec_total_len(declarable(src@).len() as int),
                    declarable(src@).len() as u16,
                    old(dst)@.len() as int,
                ),
                old(dst)@,
                final(dst)@,
                Ok((rest@, final(rest)@)),
            ),
            Err(e) => encoded(
                attr,
                declarable(src@),
                space_fault(
                    spec_total_len(declarable(src@).len() as int),
                    declarable(src@).len() as u16,
                    old(dst)@.len() as int,
                ),
                old(dst)@,
                final(dst)@,
                Err(e),
            ),
        },
{
    let src = shrink_to_u16(src);
    let len = src.len() as u16;
    let total_len = total_len(len);
    match ensure_space(total_len, len, dst.len()) {
        Err(e) => {
            return Err(e);
        },
        Ok(()) => {},
    }
    let (tlvp, rest) = dst.split_at_mut(total_len);
    let vp = encode_type_length(attr, len, tlvp);
    let (v, pad) = vp.split_at_mut(src.len());
    copy_into(v, src);
    fill_zero(pad);
    proof {
        assert(tlv(attr, src@) =~= tl_seq(attr, len) + (src@ + zeros(
            padding_of(len as int) as nat,
        )));
    }
    Ok(rest)
}

/// Writes type and length at the start of `dst` and returns what is left of `dst`
/// after them.
pub fn encode_type_length<'a>(attr: Type, len: u16, dst: &'a mut [u8]) -> (rest: &'a mut [u8])
    requires
        old(dst)@.len() >= 4,
    ensures
        rest@ == old(dst)@.skip(4),
        final(dst)@ == tl_seq(attr, len) + final(rest)@,
{
    let (tl, rest) = dst.split_at_mut(RawAttribute::TL_LEN);
    let mut bytes: [u8; 4] = [0; 4];
    RawAttribute::encode_type_length(attr, len, &mut bytes);
    copy_into(tl, &bytes);
    rest
}

/// The start of `src` that a 16-bit length can declare.
pub fn shrink_to_u16(src: &[u8]) -> (r: &[u8])
    ensures
        r@ == declarable(src@),
{
    let (r, _) = src.split_at(src.len() % 0x1_0000);
    r
}

/// The number of bytes that an attribute with a value of `len` bytes takes.
pub fn total_len(len: u16) -> (n: usize)
    ensures
        n == spec_total_len(len as int),
{
    RawAttribute::TL_LEN + len as usize + RawAttribute::padding(len) as usize
}

/// Whether `dst_len` bytes hold an attribute of `total_len` bytes, and if not,
/// whether they hold at least its type and length.
pub fn ensure_space(total_len: usize, len: u16, dst_len: usize) -> (r: Result<(), StunError>)
    ensures
        match r {
            Ok(()) => space_fault(total_len as int, len, dst_len as int) is None,
            Err(e) => space_fault(total_len as int, len, dst_len as int) == Some(e),
        },
{
    if dst_len >= total_len {
        Ok(())
    } else if dst_len >= RawAttribute::TL_LEN {
        Err(StunError::BufferTooSmallForValue { rem: (dst_len % 0x1_0000) as u16, len })
    } else {
        Err(StunError::TypeLenTooBig)
    }
}

} // verus!
