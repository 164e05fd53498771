//! The errors of text that is too long.
use crate::error::StunError;
use vstd::prelude::*;

verus! {

/// Text of too many characters.
#[derive(Debug, Clone, Copy, PartialEq, Eq, Structural)]
pub struct StringTooLong {
    /// The length in bytes, or 65535 where it is more.
    pub bytes: u16,
    /// The number of characters, where they were counted, without what is over
    /// one byte of it.
    pub chars: Option<u8>,
}

/// The error for text of `bytes` bytes and, where counted, `chars` characters.
pub open spec fn string_too_long(bytes: nat, chars: Option<nat>) -> StunError {
    StunError::StringTooLong {
        bytes: if bytes > 0xFFFF {
            0xFFFFu16
        } else {
            bytes as u16
        },
        chars: match chars {
            Some(c) => Some((c % 0x100) as u8),
            None => None,
        },
    }
}

impl StringTooLong {
    pub fn new(bytes: usize, chars: Option<usize>) -> (e: Self)
        ensures
            e.spec_error() == string_too_long(
                bytes as nat,
                match chars {
                    Some(c) => Some(c as nat),
                    None => None,
                },
            ),
    {
        Self {
            bytes: if bytes > 0xFFFF {
                0xFFFF
            } else {
                bytes as u16
            },
            chars: match chars {
                Some(c) => Some((c % 0x100) as u8),
                None => None,
            },
        }
    }

    /// This error among all errors.
    pub open spec fn spec_error(self) -> StunError {
        StunError::StringTooLong { bytes: self.bytes, chars: self.chars }
    }

    pub fn into_error(self) -> (e: StunError)
        ensures
            e == self.spec_error(),
    {
        StunError::StringTooLong { bytes: self.bytes, chars: self.chars }
    }
}

} // verus!
