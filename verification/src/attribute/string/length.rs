//! The length of text that is not a host name: 127 characters at most.
use crate::attribute::string::error::{string_too_long, StringTooLong};
use crate::attribute::string::utf8::{
    lemma_valid_up_to, str_from_utf8, utf8_error_len, utf8_valid_up_to,
};
use crate::error::StunError;
use vstd::prelude::*;
use vstd::string::*;
use vstd::utf8::{decode_utf8, encode_scalar, encode_utf8, valid_utf8};

verus! {

/// The largest number of characters.
pub const MAX_CHARS: usize = 127;

/// The largest number of bytes that `MAX_CHARS` characters can take.
pub const MAX_BYTES: usize = 127 * 4;

/// The error for text of `bytes` bytes and `chars` characters, `None` where the
/// text is short enough. Up to 127 bytes nothing is counted; over 508 bytes
/// nothing need be.
pub open spec fn length_fault(bytes: nat, chars: nat) -> Option<StunError> {
    if bytes <= MAX_CHARS {
        None
    } else if bytes <= MAX_BYTES {
        if chars > MAX_CHARS {
            Some(string_too_long(bytes, Some(chars)))
        } else {
            None
        }
    } else {
        Some(string_too_long(bytes, None))
    }
}

/// Text takes at least one byte for each character, and at most four.
pub proof fn lemma_utf8_len(chars: Seq<char>)
    ensures
        chars.len() <= encode_utf8(chars).len() <= 4 * chars.len(),
    decreases chars.len(),
{
    if chars.len() > 0 {
        let first = encode_scalar(chars[0] as u32);
        assert(1 <= first.len() <= 4);
        lemma_utf8_len(chars.drop_first());
    }
}

/// Text is short enough exactly when it has 127 characters or fewer.
pub proof fn lemma_length_fault(chars: Seq<char>)
    ensures
        length_fault(encode_utf8(chars).len(), chars.len()) is None <==> chars.len() <= MAX_CHARS,
{
    lemma_utf8_len(chars);
}

/// Checks that the text has 127 characters or fewer.
pub fn validate_str_len(s: &str) -> (r: Result<(), StunError>)
    ensures
        match r {
            Ok(()) => length_fault(s.spec_bytes().len(), s@.len()) is None,
            Err(e) => length_fault(s.spec_bytes().len(), s@.len()) == Some(e),
        },
{
    let bytes = s.as_bytes().len();
    if bytes <= MAX_CHARS {
        Ok(())
    } else if bytes <= MAX_BYTES {
        let count = s.unicode_len();
        if count > MAX_CHARS {
            Err(StringTooLong::new(bytes, Some(count)).into_error())
        } else {
            Ok(())
        }
    } else {
        Err(StringTooLong::new(bytes, None).into_error())
    }
}

/// A length as far as a byte holds it.
pub open spec fn low_byte(n: Option<usize>) -> Option<u8> {
    match n {
        Some(n) => Some((n % 0x100) as u8),
        None => None,
    }
}

/// The error for the bytes `b`, 508 at most, which are not UTF-8: it says where they
/// stop being UTF-8, and how long the invalid sequence there is, without what is
/// over one byte of that length.
pub open spec fn utf8_error(b: Seq<u8>) -> StunError {
    StunError::Utf8Error {
        valid_up_to: utf8_valid_up_to(b) as u16,
        error_len: low_byte(utf8_error_len(b)),
    }
}

/// Reads text of 127 characters or fewer from bytes. Bytes over the 508 that 127
/// characters can take are not looked at; then the bytes must be UTF-8; then the
/// characters are counted.
pub fn validate_str_bytes(b: &[u8]) -> (r: Result<&str, StunError>)
    ensures
        match r {
            Ok(s) => {
                &&& b@.len() <= MAX_BYTES
                &&& valid_utf8(b@)
                &&& s.spec_bytes() == b@
                &&& s@ == decode_utf8(b@)
                &&& s@.len() <= MAX_CHARS
            },
            Err(e) => if b@.len() > MAX_BYTES {
                e == string_too_long(b@.len(), None)
            } else if !valid_utf8(b@) {
                e == utf8_error(b@)
            } else {
                decode_utf8(b@).len() > MAX_CHARS && e == string_too_long(
                    b@.len(),
                    Some(decode_utf8(b@).len()),
                )
            },
        },
{
    if b.len() > MAX_BYTES {
        return Err(StringTooLong::new(b.len(), None).into_error());
    }
    let s = match str_from_utf8(b) {
        Ok(s) => s,
        Err(f) => {
            let e = StunError::Utf8Error {
                valid_up_to: (f.valid_up_to % 0x1_0000) as u16,
                error_len: match f.error_len {
                    Some(n) => Some((n % 0x100) as u8),
                    None => None,
                },
            };
            proof {
                lemma_valid_up_to(b@, f.valid_up_to as int);
            }
            return Err(e);
        },
    };
    proof {
        lemma_utf8_len(s@);
        vstd::utf8::encode_utf8_decode_utf8(s@);
    }
    let bytes = b.len();
    if bytes <= MAX_CHARS {
        Ok(s)
    } else {
        let count = s.unicode_len();
        if count > MAX_CHARS {
            Err(StringTooLong::new(bytes, Some(count)).into_error())
        } else {
            Ok(s)
        }
    }
}

} // verus!
