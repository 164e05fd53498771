//! The class of a message.
use vstd::prelude::*;

verus! {

/// What a message is: a request, an indication, or one of the two responses.
#[derive(Debug, Clone, Copy, PartialEq, Eq, Hash, Structural)]
pub enum Class {
    Request,
    Indication,
    SuccessResponse,
    ErrorResponse,
}

/// The two class bits of a message type, brought together: bit 4 and bit 8.
pub open spec fn class_bits(msg_type: u16) -> u16 {
    ((msg_type >> 4) & 0b01) | ((msg_type >> 7) & 0b10)
}

impl Class {
    /// The class that a message type carries.
    pub open spec fn of_msg_type(msg_type: u16) -> Class {
        let bits = class_bits(msg_type);
        if bits == 0b00 {
            Class::Request
        } else if bits == 0b01 {
            Class::Indication
        } else if bits == 0b10 {
            Class::SuccessResponse
        } else {
            Class::ErrorResponse
        }
    }

    /// The message type with the bits of this class set and no others.
    pub open spec fn msg_type_bits(self) -> u16 {
        match self {
            Class::Request => 0x0000,
            Class::Indication => 0x0010,
            Class::SuccessResponse => 0x0100,
            Class::ErrorResponse => 0x0110,
        }
    }

    pub fn from_msg_type(msg_type: u16) -> (class: Self)
        ensures
            class == Class::of_msg_type(msg_type),
    {
        let bits: u16 = ((msg_type >> 4) & 0b01) | ((msg_type >> 7) & 0b10);
        if bits == 0b00 {
            Self::Request
        } else if bits == 0b01 {
            Self::Indication
        } else if bits == 0b10 {
            Self::SuccessResponse
        } else {
            Self::ErrorResponse
        }
    }

    pub fn into_msg_type(self) -> (msg_type: u16)
        ensures
            msg_type == self.msg_type_bits(),
    {
        match self {
            Self::Request => 0x0000,
            Self::Indication => 0x0010,
            Self::SuccessResponse => 0x0100,
            Self::ErrorResponse => 0x0110,
        }
    }

    pub fn is_request(self) -> (b: bool)
        ensures
            b == (self is Request),
    {
        matches!(self, Self::Request)
    }

    pub fn is_response(self) -> (b: bool)
        ensures
            b == (self is SuccessResponse || self is ErrorResponse),
    {
        matches!(self, Self::SuccessResponse | Self::ErrorResponse)
    }

    pub fn is_success(self) -> (b: bool)
        ensures
            b == (self is SuccessResponse),
    {
        matches!(self, Self::SuccessResponse)
    }

    pub fn is_indication(self) -> (b: bool)
        ensures
            b == (self is Indication),
    {
        matches!(self, Self::Indication)
    }

    pub fn is_error(self) -> (b: bool)
        ensures
            b == (self is ErrorResponse),
    {
        matches!(self, Self::ErrorResponse)
    }
}

/// A class puts back into a message type exactly the class bits it was read from.
pub proof fn lemma_class_of_msg_type(msg_type: u16)
    ensures
        Class::of_msg_type(msg_type).msg_type_bits() == msg_type & 0x0110,
{
    let bits = class_bits(msg_type);
    assert(bits == ((msg_type >> 4) & 0b01) | ((msg_type >> 7) & 0b10));
    assert(bits == 0 ==> msg_type & 0x0110 == 0x0000) by (bit_vector)
        requires
            bits == ((msg_type >> 4) & 0b01) | ((msg_type >> 7) & 0b10),
    ;
    assert(bits == 1 ==> msg_type & 0x0110 == 0x0010) by (bit_vector)
        requires
            bits == ((msg_type >> 4) & 0b01) | ((msg_type >> 7) & 0b10),
    ;
    assert(bits == 2 ==> msg_type & 0x0110 == 0x0100) by (bit_vector)
        requires
            bits == ((msg_type >> 4) & 0b01) | ((msg_type >> 7) & 0b10),
    ;
    assert(bits != 0 && bits != 1 && bits != 2 ==> msg_type & 0x0110 == 0x0110) by (bit_vector)
        requires
            bits == ((msg_type >> 4) & 0b01) | ((msg_type >> 7) & 0b10),
    ;
}

/// Reading the class of the bits that a class sets gives the class.
pub proof fn lemma_msg_type_of_class(class: Class)
    ensures
        Class::of_msg_type(class.msg_type_bits()) == class,
{
    assert(class_bits(0x0000) == 0) by (bit_vector);
    assert(class_bits(0x0010) == 1) by (bit_vector);
    assert(class_bits(0x0100) == 2) by (bit_vector);
    assert(class_bits(0x0110) == 3) by (bit_vector);
}

} // verus!
