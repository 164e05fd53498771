//! The DATA attribute: bytes relayed as they are.
use crate::attribute::{
    declarable, encode_variable_len, space_fault, spec_total_len, AsBytes, Attribute,
    DecodeAttribute, EncodeAttribute, Type,
};
use crate::error::StunError;
use crate::header::TransactionId;
use vstd::prelude::*;

verus! {

/// Bytes to relay, in whatever holds them.
#[derive(Debug, Clone, PartialEq, Eq, Hash)]
pub struct Data<T>(pub T);

impl<T> Data<T> {
    /// The type of this attribute.
    pub const TYPE: u16 = 0x0013;

    pub fn new(data: T) -> (d: Self)
        ensures
            d.0 == data,
    {
        Self(data)
    }
}

impl<T: AsBytes> Data<T> {
    pub fn data(&self) -> (b: &[u8])
        ensures
            b@ == self.0.bytes(),
    {
        self.0.as_bytes()
    }
}

impl<T: AsBytes> Attribute for Data<T> {
    open spec fn spec_type(&self) -> Type {
        Type(Type::DATA)
    }

    fn attribute_type(&self) -> (t: Type) {
        Type(Type::DATA)
    }
}

impl<T: AsBytes> EncodeAttribute for Data<T> {
    open spec fn wire_value(&self, transaction_id: TransactionId) -> Seq<u8> {
        declarable(self.0.bytes())
    }

    open spec fn fault(&self, avail: nat) -> Option<StunError> {
        space_fault(
            spec_total_len(declarable(self.0.bytes()).len() as int),
            declarable(self.0.bytes()).len() as u16,
            avail as int,
        )
    }

    fn encoded_value_len(&self) -> (len: u16) {
        (self.data().len() % 0x1_0000) as u16
    }

    fn encode<'a>(&self, dst: &'a mut [u8], transaction_id: &TransactionId) -> (r: Result<
        &'a mut [u8],
        StunError,
    >) {
        encode_variable_len(Type(Type::DATA), self.data(), dst)
    }
}

impl<'d> DecodeAttribute<'d> for Data<&'d [u8]> {
    open spec fn decoded(attr: Type, src: Seq<u8>, transaction_id: TransactionId, r: Result<
        Self,
        StunError,
    >) -> bool {
        r matches Ok(d) && d.0@ == src
    }

    fn decode(attr: Type, src: &'d [u8], transaction_id: &TransactionId) -> (r: Result<
        Self,
        StunError,
    >) {
        Ok(Self::new(src))
    }
}

} // verus!
