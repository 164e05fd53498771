//! The method of a message.
use vstd::prelude::*;

verus! {

/// The 12-bit codepoint that says what a message is about.
#[derive(Debug, Clone, Copy, PartialEq, Eq, Hash, PartialOrd, Ord, Structural)]
pub struct Method(pub u16);

impl Method {
    pub const BINDING: u16 = 0x001;
    pub const ALLOCATE: u16 = 0x003;
    pub const REFRESH: u16 = 0x004;
    pub const SEND: u16 = 0x006;
    pub const DATA: u16 = 0x007;
    pub const CREATE_PERMISSION: u16 = 0x008;
    pub const CHANNEL_BIND: u16 = 0x009;
    pub const CONNECT: u16 = 0x00A;
    pub const CONNECTION_BIND: u16 = 0x00B;
    pub const CONNECTION_ATTEMPT: u16 = 0x00C;
    pub const GOOG_PING: u16 = 0x080;

    /// The method that a message type carries: its twelve method bits, closed up.
    pub open spec fn of_msg_type(msg_type: u16) -> Method {
        Method((msg_type & 0x00F) | ((msg_type >> 1) & 0x070) | ((msg_type >> 2) & 0xF80))
    }

    /// The message type with the bits of this method set and no others.
    pub open spec fn msg_type_bits(self) -> u16 {
        (self.0 & 0x00F) | ((self.0 & 0x070) << 1) | ((self.0 & 0xF80) << 2)
    }

    pub fn from_msg_type(msg_type: u16) -> (method: Self)
        ensures
            method == Method::of_msg_type(msg_type),
    {
        Self((msg_type & 0x00F) | ((msg_type >> 1) & 0x070) | ((msg_type >> 2) & 0xF80))
    }

    pub fn into_msg_type(self) -> (msg_type: u16)
        ensures
            msg_type == self.msg_type_bits(),
    {
        (self.0 & 0x00F) | ((self.0 & 0x070) << 1) | ((self.0 & 0xF80) << 2)
    }
}

/// A method puts back into a message type exactly the method bits it was read from.
pub proof fn lemma_method_of_msg_type(msg_type: u16)
    ensures
        Method::of_msg_type(msg_type).msg_type_bits() == msg_type & 0x3EEF,
        Method::of_msg_type(msg_type).0 <= 0xFFF,
{
    let m: u16 = (msg_type & 0x00F) | ((msg_type >> 1) & 0x070) | ((msg_type >> 2) & 0xF80);
    assert((m & 0x00F) | ((m & 0x070) << 1) | ((m & 0xF80) << 2) == msg_type & 0x3EEF) by (bit_vector)
        requires
            m == (msg_type & 0x00F) | ((msg_type >> 1) & 0x070) | ((msg_type >> 2) & 0xF80),
    ;
    assert(m <= 0xFFF) by (bit_vector)
        requires
            m == (msg_type & 0x00F) | ((msg_type >> 1) & 0x070) | ((msg_type >> 2) & 0xF80),
    ;
}

/// Reading the method of the bits that a 12-bit method sets gives the method.
pub proof fn lemma_msg_type_of_method(method: Method)
    requires
        method.0 <= 0xFFF,
    ensures
        Method::of_msg_type(method.msg_type_bits()) == method,
{
    let m = method.0;
    let t: u16 = (m & 0x00F) | ((m & 0x070) << 1) | ((m & 0xF80) << 2);
    assert((t & 0x00F) | ((t >> 1) & 0x070) | ((t >> 2) & 0xF80) == m) by (bit_vector)
        requires
            m <= 0xFFF,
            t == (m & 0x00F) | ((m & 0x070) << 1) | ((m & 0xF80) << 2),
    ;
}

} // verus!
