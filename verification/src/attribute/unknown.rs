//! Attributes that are not known, and the attribute that lists their types.
use crate::attribute::{
    declarable, encode_type_length, encode_variable_len, encoded, ensure_space, space_fault,
    spec_total_len, tlv, total_len, Attribute, DecodeAttribute, EncodeAttribute, Type,
    MAX_VALUE_LEN,
};
use crate::error::StunError;
use crate::header::TransactionId;
use crate::parse::attribute::{padding_of, tl_seq};
use crate::wire::{be16, fill_zero, u16_be_bytes, u16_from_be, zeros};
use vstd::prelude::*;

verus! {

/// The UNKNOWN-ATTRIBUTES attribute: the types that a receiver did not know.
#[derive(Debug, Clone, Eq, PartialEq, Hash)]
pub struct UnknownAttributes<T>(pub T);

/// A list of types as it stands in a message: two bytes each.
#[derive(Debug, Clone, Copy, Eq, PartialEq, Hash)]
pub struct Parsed<'a> {
    bytes: &'a [u8],
}

impl<'a> View for Parsed<'a> {
    type V = Seq<u8>;

    closed spec fn view(&self) -> Seq<u8> {
        self.bytes@
    }
}

/// The types that `bytes` list, two bytes each.
pub open spec fn types_of(bytes: Seq<u8>) -> Seq<Type> {
    Seq::new(bytes.len() / 2, |i: int| Type(be16(bytes[2 * i], bytes[2 * i + 1])))
}

/// The bytes that list `types`, two bytes each.
pub open spec fn bytes_of(types: Seq<Type>) -> Seq<u8> {
    Seq::new(
        2 * types.len(),
        |i: int|
            if i % 2 == 0 {
                (types[i / 2].0 / 256) as u8
            } else {
                (types[i / 2].0 % 256) as u8
            },
    )
}

impl<T> UnknownAttributes<T> {
    /// The type of this attribute.
    pub const TYPE: u16 = 0x000A;

    pub fn new(inner: T) -> (a: Self)
        ensures
            a.0 == inner,
    {
        Self(inner)
    }

    pub fn into_inner(self) -> (inner: T)
        ensures
            inner == self.0,
    {
        self.0
    }
}

impl<'a> Parsed<'a> {
    #[verifier::type_invariant]
    spec fn even(self) -> bool {
        self.bytes@.len() % 2 == 0
    }
}

impl<'a> UnknownAttributes<Parsed<'a>> {
    /// Takes the value of an UNKNOWN-ATTRIBUTES attribute: an even number of
    /// bytes.
    pub fn from_bytes(src: &'a [u8]) -> (r: Result<Self, StunError>)
        ensures
            match r {
                Ok(a) => src@.len() % 2 == 0 && a.0@ == src@,
                Err(e) => src@.len() % 2 != 0 && e == StunError::InvalidAttrTypeArray,
            },
    {
        if src.len() % Type::LEN != 0 {
            return Err(StunError::InvalidAttrTypeArray);
        }
        Ok(Self(Parsed { bytes: src }))
    }

    pub fn as_bytes(&self) -> (b: &'a [u8])
        ensures
            b@ == self.0@,
            b@.len() % 2 == 0,
    {
        proof {
            use_type_invariant(&self.0);
        }
        self.0.bytes
    }

    /// The types that are listed.
    pub fn iter(&self) -> (types: Vec<Type>)
        ensures
            types@ == types_of(self.0@),
    {
        let bytes = self.as_bytes();
        let count = bytes.len() / 2;
        let mut types: Vec<Type> = Vec::new();
        let mut i: usize = 0;
        while i < count
            invariant
                i <= count,
                count == bytes@.len() / 2,
                bytes@.len() % 2 == 0,
                bytes@.len() <= usize::MAX,
                types@.len() == i,
                forall|j: int| 0 <= j < i ==> types@[j] == types_of(bytes@)[j],
            decreases count - i,
        {
            types.push(convert(bytes[2 * i], bytes[2 * i + 1]));
            i += 1;
        }
        assert(types@ =~= types_of(bytes@));
        types
    }
}

impl<'a> Attribute for UnknownAttributes<Parsed<'a>> {
    open spec fn spec_type(&self) -> Type {
        Type(Type::UNKNOWN_ATTRIBUTES)
    }

    fn attribute_type(&self) -> (t: Type) {
        Type(Type::UNKNOWN_ATTRIBUTES)
    }
}

impl<'b> EncodeAttribute for UnknownAttributes<Parsed<'b>> {
    open spec fn wire_value(&self, transaction_id: TransactionId) -> Seq<u8> {
        declarable(self.0@)
    }

    open spec fn fault(&self, avail: nat) -> Option<StunError> {
        space_fault(
            spec_total_len(declarable(self.0@).len() as int),
            declarable(self.0@).len() as u16,
            avail as int,
        )
    }

    fn encoded_value_len(&self) -> (len: u16) {
        (self.as_bytes().len() % 0x1_0000) as u16
    }

    fn encode<'a>(&self, dst: &'a mut [u8], transaction_id: &TransactionId) -> (r: Result<
        &'a mut [u8],
        StunError,
    >) {
        encode_variable_len(Type(Type::UNKNOWN_ATTRIBUTES), self.as_bytes(), dst)
    }
}

impl<'d> DecodeAttribute<'d> for UnknownAttributes<Parsed<'d>> {
    open spec fn decoded(attr: Type, src: Seq<u8>, transaction_id: TransactionId, r: Result<
        Self,
        StunError,
    >) -> bool {
        match r {
            Ok(a) => src.len() % 2 == 0 && a.0@ == src,
            Err(e) => src.len() % 2 != 0 && e == StunError::InvalidAttrTypeArray,
        }
    }

    fn decode(attr: Type, src: &'d [u8], transaction_id: &TransactionId) -> (r: Result<
        Self,
        StunError,
    >) {
        Self::from_bytes(src)
    }
}

impl<'a> Attribute for UnknownAttributes<&'a [Type]> {
    open spec fn spec_type(&self) -> Type {
        Type(Type::UNKNOWN_ATTRIBUTES)
    }

    fn attribute_type(&self) -> (t: Type) {
        Type(Type::UNKNOWN_ATTRIBUTES)
    }
}

impl<'b> EncodeAttribute for UnknownAttributes<&'b [Type]> {
    open spec fn wire_value(&self, transaction_id: TransactionId) -> Seq<u8> {
        bytes_of(self.0@.take(listable(self.0@.len())))
    }

    open spec fn fault(&self, avail: nat) -> Option<StunError> {
        space_fault(
            spec_total_len(2 * listable(self.0@.len())),
            (2 * listable(self.0@.len())) as u16,
            avail as int,
        )
    }

    fn encoded_value_len(&self) -> (len: u16) {
        len_from_count(self.0.len())
    }

    fn encode<'a>(&self, dst: &'a mut [u8], transaction_id: &TransactionId) -> (r: Result<
        &'a mut [u8],
        StunError,
    >) {
        encode_unknown_attributes(self.0, dst)
    }
}

/// The number of types, out of `count`, that a 16-bit length can declare.
pub open spec fn listable(count: nat) -> int {
    (count % 0x8000) as int
}

/// Writes an UNKNOWN-ATTRIBUTES attribute that lists `types`, cut to what a 16-bit
/// length can declare.
pub fn encode_unknown_attributes<'a>(types: &[Type], dst: &'a mut [u8]) -> (r: Result<
    &'a mut [u8],
    StunError,
>)
    ensures
        match r {
            Ok(rest) => encoded(
                Type(Type::UNKNOWN_ATTRIBUTES),
                bytes_of(types@.take(listable(types@.len()))),
                space_fault(
                    spec_total_len(2 * listable(types@.len())),
                    (2 * listable(types@.len())) as u16,
                    old(dst)@.len() as int,
                ),
                old(dst)@,
                final(dst)@,
                Ok((rest@, final(rest)@)),
            ),
            Err(e) => encoded(
                Type(Type::UNKNOWN_ATTRIBUTES),
                bytes_of(types@.take(listable(types@.len()))),
                space_fault(
                    spec_total_len(2 * listable(types@.len())),
                    (2 * listable(types@.len())) as u16,
                    old(dst)@.len() as int,
                ),
                old(dst)@,
                final(dst)@,
                Err(e),
            ),
        },
{
    let len = len_from_count(types.len());
    let count = (len / 2) as usize;
    let total_len = total_len(len);
    match ensure_space(total_len, len, dst.len()) {
        Ok(()) => {},
        Err(e) => {
            return Err(e);
        },
    }
    let (tlvp, rest) = dst.split_at_mut(total_len);
    let vp = encode_type_length(Type(Type::UNKNOWN_ATTRIBUTES), len, tlvp);
    let (v, pad) = vp.split_at_mut(len as usize);
    let ghost listed = types@.take(count as int);
    let mut i: usize = 0;
    while i < count
        invariant
            i <= count,
            count <= types@.len(),
            count <= 0x7FFF,
            v@.len() == 2 * count,
            listed == types@.take(count as int),
            forall|j: int| 0 <= j < 2 * i ==> v@[j] == bytes_of(listed)[j],
        decreases count - i,
    {
        let b = u16_be_bytes(types[i].codepoint());
        v[2 * i] = b[0];
        v[2 * i + 1] = b[1];
        i += 1;
    }
    fill_zero(pad);
    proof {
        assert(v@ =~= bytes_of(listed));
        assert(tlv(Type(Type::UNKNOWN_ATTRIBUTES), bytes_of(listed)) =~= tl_seq(
            Type(Type::UNKNOWN_ATTRIBUTES),
            len,
        ) + (bytes_of(listed) + zeros(padding_of(len as int) as nat)));
    }
    Ok(rest)
}

/// The length in bytes of a list of `count` types, as far as 16 bits hold it.
pub fn len_from_count(count: usize) -> (len: u16)
    ensures
        len == 2 * listable(count as nat),
{
    ((count % 0x8000) * Type::LEN) as u16
}

/// The type that two bytes stand for.
pub fn convert(hi: u8, lo: u8) -> (t: Type)
    ensures
        t == Type(be16(hi, lo)),
{
    Type::new(u16_from_be(hi, lo))
}

/// An attribute of a type that is not known, with its value as it is.
#[derive(Debug, Clone, Copy, PartialEq, Eq, Hash)]
pub struct UnknownAttribute<'a> {
    attr: Type,
    value: &'a [u8],
}

/// An unknown attribute as plain values.
pub struct UnknownView {
    pub attr: Type,
    pub value: Seq<u8>,
}

impl<'a> View for UnknownAttribute<'a> {
    type V = UnknownView;

    closed spec fn view(&self) -> UnknownView {
        UnknownView { attr: self.attr, value: self.value@ }
    }
}

impl<'a> UnknownAttribute<'a> {
    #[verifier::type_invariant]
    spec fn short_enough(self) -> bool {
        self.value@.len() <= MAX_VALUE_LEN
    }

    /// An attribute of type `attr` with the value `value`, which must not be over
    /// the longest value.
    pub fn new(attr: Type, value: &'a [u8]) -> (r: Result<Self, StunError>)
        ensures
            match r {
                Ok(a) => value@.len() <= MAX_VALUE_LEN && a@ == (UnknownView { attr, value: value@ }),
                Err(e) => value@.len() > MAX_VALUE_LEN && e == StunError::ValueTooLong {
                    len: value@.len() as usize,
                },
            },
    {
        if value.len() > MAX_VALUE_LEN {
            return Err(StunError::ValueTooLong { len: value.len() });
        }
        Ok(Self { attr, value })
    }

    pub fn attr(&self) -> (t: Type)
        ensures
            t == self@.attr,
    {
        self.attr
    }

    pub fn value(&self) -> (v: &'a [u8])
        ensures
            v@ == self@.value,
            v@.len() <= MAX_VALUE_LEN,
    {
        proof {
            use_type_invariant(self);
        }
        self.value
    }
}

impl<'a> Attribute for UnknownAttribute<'a> {
    open spec fn spec_type(&self) -> Type {
        self@.attr
    }

    fn attribute_type(&self) -> (t: Type) {
        self.attr
    }
}

impl<'b> EncodeAttribute for UnknownAttribute<'b> {
    open spec fn wire_value(&self, transaction_id: TransactionId) -> Seq<u8> {
        declarable(self@.value)
    }

    open spec fn fault(&self, avail: nat) -> Option<StunError> {
        space_fault(
            spec_total_len(declarable(self@.value).len() as int),
            declarable(self@.value).len() as u16,
            avail as int,
        )
    }

    fn encoded_value_len(&self) -> (len: u16) {
        (self.value().len() % 0x1_0000) as u16
    }

    fn encode<'a>(&self, dst: &'a mut [u8], transaction_id: &TransactionId) -> (r: Result<
        &'a mut [u8],
        StunError,
    >) {
        encode_variable_len(self.attr, self.value(), dst)
    }
}

impl<'d> DecodeAttribute<'d> for UnknownAttribute<'d> {
    open spec fn decoded(attr: Type, src: Seq<u8>, transaction_id: TransactionId, r: Result<
        Self,
        StunError,
    >) -> bool {
        match r {
            Ok(a) => src.len() <= MAX_VALUE_LEN && a@ == (UnknownView { attr, value: src }),
            Err(e) => src.len() > MAX_VALUE_LEN && e == StunError::ValueTooLong {
                len: src.len() as usize,
            },
        }
    }

    fn decode(attr: Type, src: &'d [u8], transaction_id: &TransactionId) -> (r: Result<
        Self,
        StunError,
    >) {
        Self::new(attr, src)
    }
}

} // verus!
