//! The CHANGE-REQUEST attribute: a request to answer from another address or port.
use crate::attribute::integer::{decode_integer, decoded_integer, encode_integer};
use crate::attribute::{space_fault, Attribute, DecodeAttribute, EncodeAttribute, Type};
use crate::error::StunError;
use crate::header::TransactionId;
use crate::wire::{be32, be32_seq, u32_be_bytes, u32_from_be};
use vstd::prelude::*;

verus! {

/// What is asked to change.
#[derive(Debug, Clone, Copy, PartialEq, Eq, Hash, Structural)]
enum Request {
    Neither,
    Port,
    Ip,
    Both,
}

/// A request to answer from another IP address, another port, or both.
#[derive(Debug, Clone, Copy, PartialEq, Eq, Hash, Structural)]
pub struct ChangeRequest(Request);

/// The flag of the IP address in the value.
pub const CHANGE_IP: u32 = 0x4;

/// The flag of the port in the value.
pub const CHANGE_PORT: u32 = 0x2;

/// The value that asks for these changes: the sum of their flags.
pub open spec fn request_bits(ip: bool, port: bool) -> u32 {
    ((if ip {
        CHANGE_IP as int
    } else {
        0
    }) + (if port {
        CHANGE_PORT as int
    } else {
        0
    })) as u32
}

impl ChangeRequest {
    /// The type of this attribute.
    pub const TYPE: u16 = 0x0003;

    /// Whether a change of IP address is asked for.
    pub closed spec fn spec_ip(&self) -> bool {
        self.0 is Ip || self.0 is Both
    }

    /// Whether a change of port is asked for.
    pub closed spec fn spec_port(&self) -> bool {
        self.0 is Port || self.0 is Both
    }

    pub fn new(ip: bool, port: bool) -> (c: Self)
        ensures
            c.spec_ip() == ip,
            c.spec_port() == port,
    {
        Self(
            match (ip, port) {
                (false, false) => Request::Neither,
                (false, true) => Request::Port,
                (true, false) => Request::Ip,
                (true, true) => Request::Both,
            },
        )
    }

    pub fn ip(&self) -> (b: bool)
        ensures
            b == self.spec_ip(),
    {
        matches!(self.0, Request::Ip | Request::Both)
    }

    pub fn port(&self) -> (b: bool)
        ensures
            b == self.spec_port(),
    {
        matches!(self.0, Request::Port | Request::Both)
    }

    /// The value that asks for the changes of this request.
    fn bits(&self) -> (x: u32)
        ensures
            x == request_bits(self.spec_ip(), self.spec_port()),
    {
        match self.0 {
            Request::Neither => 0x0,
            Request::Port => 0x2,
            Request::Ip => 0x4,
            Request::Both => 0x6,
        }
    }
}

impl Attribute for ChangeRequest {
    open spec fn spec_type(&self) -> Type {
        Type(Type::CHANGE_REQUEST)
    }

    fn attribute_type(&self) -> (t: Type) {
        Type(Type::CHANGE_REQUEST)
    }
}

impl EncodeAttribute for ChangeRequest {
    open spec fn wire_value(&self, transaction_id: TransactionId) -> Seq<u8> {
        be32_seq(request_bits(self.spec_ip(), self.spec_port()))
    }

    open spec fn fault(&self, avail: nat) -> Option<StunError> {
        space_fault(8, 4, avail as int)
    }

    fn encoded_value_len(&self) -> (len: u16) {
        4
    }

    fn encode<'a>(&self, dst: &'a mut [u8], transaction_id: &TransactionId) -> (r: Result<
        &'a mut [u8],
        StunError,
    >) {
        let bytes = u32_be_bytes(self.bits());
        encode_integer::<4>(Type(Type::CHANGE_REQUEST), dst, &bytes)
    }
}

impl<'d> DecodeAttribute<'d> for ChangeRequest {
    open spec fn decoded(attr: Type, src: Seq<u8>, transaction_id: TransactionId, r: Result<
        Self,
        StunError,
    >) -> bool {
        match r {
            Ok(c) => {
                &&& src.len() == 4
                &&& c.spec_ip() == (be32(src[0], src[1], src[2], src[3]) & CHANGE_IP != 0)
                &&& c.spec_port() == (be32(src[0], src[1], src[2], src[3]) & CHANGE_PORT != 0)
            },
            Err(e) => decoded_integer(4, src) == Err::<Seq<u8>, StunError>(e),
        }
    }

    fn decode(attr: Type, src: &'d [u8], transaction_id: &TransactionId) -> (r: Result<
        Self,
        StunError,
    >) {
        match decode_integer::<4>(src) {
            Ok(b) => {
                let x = u32_from_be(b[0], b[1], b[2], b[3]);
                Ok(Self::new(x & CHANGE_IP != 0, x & CHANGE_PORT != 0))
            },
            Err(e) => Err(e),
        }
    }
}

} // verus!
