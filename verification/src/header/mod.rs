//! The 20-byte header that starts every message.
use crate::error::StunError;
use crate::wire::{be16, be16_seq, be32, be32_seq, u16_be_bytes, u16_from_be, u32_be_bytes, u32_from_be};
use crate::MAGIC_COOKIE;
use vstd::prelude::*;

mod class;
mod method;
mod transaction_id;

pub use class::{class_bits, lemma_class_of_msg_type, lemma_msg_type_of_class, Class};
pub use method::{lemma_method_of_msg_type, lemma_msg_type_of_method, Method};
pub use transaction_id::TransactionId;

verus! {

/// A decoded header.
#[derive(Debug, Clone, Copy, PartialEq, Eq)]
pub struct Header {
    pub class: Class,
    pub method: Method,
    /// The number of bytes of attributes that follow the header.
    pub length: u16,
    pub magic_cookie: u32,
    pub transaction_id: TransactionId,
}

/// The message type in the first two bytes of a header.
pub open spec fn wire_msg_type(bytes: Seq<u8>) -> u16 {
    be16(bytes[0], bytes[1])
}

/// The attribute length in bytes 2 and 3 of a header.
pub open spec fn wire_length(bytes: Seq<u8>) -> u16 {
    be16(bytes[2], bytes[3])
}

/// The magic cookie in bytes 4 to 7 of a header.
pub open spec fn wire_cookie(bytes: Seq<u8>) -> u32 {
    be32(bytes[4], bytes[5], bytes[6], bytes[7])
}

/// What decoding 20 bytes gives: the header, or the first fault in the bytes.
pub open spec fn decoded(bytes: Seq<u8>) -> Result<Header, StunError> {
    let msg_type = wire_msg_type(bytes);
    let length = wire_length(bytes);
    if msg_type > 0x3FFF {
        Err(StunError::MsbNotZero { bits: (msg_type >> 14) as u8 })
    } else if length % 4 != 0 {
        Err(StunError::InvalidLen { len: length })
    } else {
        Ok(
            Header {
                class: Class::of_msg_type(msg_type),
                method: Method::of_msg_type(msg_type),
                length,
                magic_cookie: wire_cookie(bytes),
                transaction_id: TransactionId(array_of(bytes.subrange(8, 20))),
            },
        )
    }
}

/// The array of twelve bytes that holds `s`.
pub open spec fn array_of(s: Seq<u8>) -> [u8; 12] {
    choose|a: [u8; 12]| a@ == s
}

impl Header {
    /// The number of bytes in a header.
    pub const LEN: usize = 20;

    /// The message type that holds the class and the method of this header.
    pub open spec fn spec_msg_type(&self) -> u16 {
        self.method.msg_type_bits() | self.class.msg_type_bits()
    }

    /// The 20 bytes that this header is on the wire.
    pub open spec fn wire(&self) -> Seq<u8> {
        be16_seq(self.spec_msg_type()) + be16_seq(self.length) + be32_seq(self.magic_cookie)
            + self.transaction_id@
    }

    /// A header of the current protocol version.
    pub fn new(class: Class, method: Method, length: u16, transaction_id: TransactionId) -> (h: Self)
        ensures
            h == (Header { class, method, length, magic_cookie: MAGIC_COOKIE, transaction_id }),
    {
        Self { class, method, length, transaction_id, magic_cookie: MAGIC_COOKIE }
    }

    /// Reads a header. The magic cookie is taken as it is: a header by itself may
    /// carry another.
    pub fn decode(src: &[u8; 20]) -> (r: Result<Self, StunError>)
        ensures
            r == decoded(src@),
    {
        let msg_type = u16_from_be(src[0], src[1]);
        let length = u16_from_be(src[2], src[3]);
        let magic_cookie = u32_from_be(src[4], src[5], src[6], src[7]);
        let id: [u8; 12] = [
            src[8], src[9], src[10], src[11], src[12], src[13],
            src[14], src[15], src[16], src[17], src[18], src[19],
        ];
        proof {
            assert(id@ =~= src@.subrange(8, 20));
            lemma_array_of(id);
        }
        let class = Class::from_msg_type(msg_type);
        let method = Method::from_msg_type(msg_type);
        if msg_type > 0x3FFF {
            return Err(StunError::MsbNotZero { bits: (msg_type >> 14) as u8 });
        }
        if length % 4 != 0 {
            return Err(StunError::InvalidLen { len: length });
        }
        Ok(Self { class, method, length, magic_cookie, transaction_id: TransactionId(id) })
    }

    /// Writes the header.
    pub fn encode(&self, dst: &mut [u8; 20])
        ensures
            final(dst)@ == self.wire(),
    {
        let t = u16_be_bytes(self.msg_type());
        let l = u16_be_bytes(self.length);
        let c = u32_be_bytes(self.magic_cookie);
        dst[0] = t[0];
        dst[1] = t[1];
        dst[2] = l[0];
        dst[3] = l[1];
        dst[4] = c[0];
        dst[5] = c[1];
        dst[6] = c[2];
        dst[7] = c[3];
        let mut i: usize = 0;
        while i < 12
            invariant
                i <= 12,
                dst@.len() == 20,
                dst@.subrange(0, 8) == be16_seq(self.spec_msg_type()) + be16_seq(self.length)
                    + be32_seq(self.magic_cookie),
                dst@.subrange(8, 8 + i as int) == self.transaction_id@.subrange(0, i as int),
            decreases 12 - i,
        {
            let ghost before = dst@;
            dst[8 + i] = self.transaction_id.0[i];
            assert(dst@.subrange(0, 8) =~= before.subrange(0, 8));
            assert(dst@.subrange(8, 8 + i as int + 1) =~= self.transaction_id@.subrange(
                0,
                i as int + 1,
            ));
            i += 1;
        }
        assert(dst@ =~= dst@.subrange(0, 8) + dst@.subrange(8, 20));
        assert(self.transaction_id@.subrange(0, 12) =~= self.transaction_id@);
    }

    pub fn class(&self) -> (c: Class)
        ensures
            c == self.class,
    {
        self.class
    }

    pub fn method(&self) -> (m: Method)
        ensures
            m == self.method,
    {
        self.method
    }

    pub fn length(&self) -> (l: u16)
        ensures
            l == self.length,
    {
        self.length
    }

    pub fn magic_cookie(&self) -> (c: u32)
        ensures
            c == self.magic_cookie,
    {
        self.magic_cookie
    }

    pub fn transaction_id(&self) -> (t: TransactionId)
        ensures
            t == self.transaction_id,
    {
        self.transaction_id
    }

    /// The message type: the bits of the method and of the class together.
    pub fn msg_type(&self) -> (t: u16)
        ensures
            t == self.spec_msg_type(),
    {
        self.method.into_msg_type() | self.class.into_msg_type()
    }

    /// Whether the header carries something else than the magic cookie, as a message
    /// of the protocol's earlier revision does.
    pub fn is_rfc3489(&self) -> (b: bool)
        ensures
            b == (self.magic_cookie != MAGIC_COOKIE),
    {
        self.magic_cookie() != MAGIC_COOKIE
    }
}

/// An array is the array of its own bytes.
pub proof fn lemma_array_of(a: [u8; 12])
    ensures
        array_of(a@) == a,
{
    let b = array_of(a@);
    assert(b@ == a@);
    assert(b =~= a);
}

/// Round trip: a header that decodes encodes to the bytes it was decoded from.
pub proof fn lemma_decode_encode(bytes: Seq<u8>)
    requires
        bytes.len() == 20,
        decoded(bytes) is Ok,
    ensures
        decoded(bytes)->Ok_0.wire() == bytes,
{
    let h = decoded(bytes)->Ok_0;
    let t = wire_msg_type(bytes);
    lemma_class_of_msg_type(t);
    lemma_method_of_msg_type(t);
    let m = h.method.msg_type_bits();
    let c = h.class.msg_type_bits();
    assert(m | c == t) by (bit_vector)
        requires
            t <= 0x3FFF,
            m == t & 0x3EEF,
            c == t & 0x0110,
    ;
    assert(be16_seq(t) =~= seq![bytes[0], bytes[1]]);
    assert(be16_seq(h.length) =~= seq![bytes[2], bytes[3]]);
    assert(be32_seq(h.magic_cookie) =~= seq![bytes[4], bytes[5], bytes[6], bytes[7]]);
    let id = bytes.subrange(8, 20);
    let witness: [u8; 12] = [
        id[0], id[1], id[2], id[3], id[4], id[5], id[6], id[7], id[8], id[9], id[10], id[11],
    ];
    assert(witness@ =~= id);
    assert(h.transaction_id@ == id);
    assert(h.wire() =~= bytes);
}

/// The other way round: a header with a 12-bit method and a length that is a
/// multiple of 4 decodes, from the bytes it encodes to, to itself.
pub proof fn lemma_encode_decode(h: Header)
    requires
        h.method.0 <= 0xFFF,
        h.length % 4 == 0,
    ensures
        h.wire().len() == 20,
        decoded(h.wire()) == Ok::<Header, StunError>(h),
{
    let bytes = h.wire();
    let t = h.spec_msg_type();
    let m = h.method.msg_type_bits();
    let c = h.class.msg_type_bits();
    let mv = h.method.0;
    assert(h.transaction_id@.len() == 12);
    assert(bytes.len() == 20);
    assert(wire_msg_type(bytes) == t);
    assert(wire_length(bytes) == h.length);
    assert(wire_cookie(bytes) == h.magic_cookie);
    assert(bytes.subrange(8, 20) =~= h.transaction_id@);
    lemma_array_of(h.transaction_id.0);
    lemma_msg_type_of_class(h.class);
    lemma_msg_type_of_method(h.method);
    assert(c == 0x0000 || c == 0x0010 || c == 0x0100 || c == 0x0110);
    assert(m | c <= 0x3FFF && class_bits(m | c) == class_bits(c) && ((m | c) & 0x00F) | (((m | c)
        >> 1) & 0x070) | (((m | c) >> 2) & 0xF80) == mv) by (bit_vector)
        requires
            mv <= 0xFFF,
            m == (mv & 0x00F) | ((mv & 0x070) << 1) | ((mv & 0xF80) << 2),
            c == 0x0000 || c == 0x0010 || c == 0x0100 || c == 0x0110,
    ;
}

} // verus!
