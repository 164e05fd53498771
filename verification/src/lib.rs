//! A zero-copy codec for STUN messages and the TURN and ICE attributes built on them.
//!
//! A message is a 20-byte header followed by type-length-value attributes, each padded
//! to a multiple of four bytes. [`MessageParser`] turns a buffer into a borrowed view of
//! one message, and the attribute types under [`attribute`] turn typed values into wire
//! bytes and back.
use vstd::prelude::*;

pub mod attribute;
pub mod error;
pub mod header;
pub mod parse;
pub mod wire;

pub use attribute::Type as AttributeType;
pub use error::StunError;
pub use header::{Class, Header, Method, TransactionId};
pub use parse::MessageParser;


verus! {

/// The constant that the header of every current-version message carries.
pub const MAGIC_COOKIE: u32 = 0x2112_A442;

/// The magic cookie in network byte order.
pub open spec fn magic_cookie_bytes() -> Seq<u8> {
    seq![0x21u8, 0x12u8, 0xA4u8, 0x42u8]
}

} // verus!
