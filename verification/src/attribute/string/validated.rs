//! Text that has passed the checks of its kind.
use crate::attribute::string::dns::{is_domain_name, validate_domain_name, MAX_NAME_LENGTH};
use crate::attribute::string::length::{
    length_fault, lemma_length_fault, lemma_utf8_len, validate_str_bytes, validate_str_len, MAX_BYTES,
    MAX_CHARS,
};
use crate::attribute::string::opaque::{is_opaque_string, is_opaque_string_ascii, opaque_text};
use crate::attribute::string::quoted::{is_quoted_text, is_quoted_text_ascii, quoted_text};
use crate::attribute::string::AsStr;
use crate::error::StunError;
use vstd::prelude::*;
use vstd::string::*;
use vstd::utf8::{decode_utf8, encode_utf8, valid_utf8};

verus! {

/// What text must be for a kind that asks for a host name (`dns`), for quoted text
/// (`quoted`), for an opaque string (`opaque`): a host name, or else 127 characters
/// at most; and each of the other two where it is asked for.
pub open spec fn policy(dns: bool, quoted: bool, opaque: bool, s: Seq<char>) -> bool {
    &&& if dns {
        is_domain_name(encode_utf8(s))
    } else {
        s.len() <= MAX_CHARS
    }
    &&& quoted ==> quoted_text(s)
    &&& opaque ==> opaque_text(s)
}

/// The error for text that is not quoted text or not an opaque string where it
/// must be, `None` where it is what it must be.
pub open spec fn quoted_opaque_fault(quoted: bool, opaque: bool, s: Seq<char>) -> Option<StunError> {
    if quoted && !quoted_text(s) {
        Some(StunError::StringNotQuoted)
    } else if opaque && !opaque_text(s) {
        Some(StunError::StringNotOpaque)
    } else {
        None
    }
}

/// The first fault that the checks find in text, `None` where it passes them all.
pub open spec fn policy_fault(dns: bool, quoted: bool, opaque: bool, s: Seq<char>) -> Option<
    StunError,
> {
    if dns && !is_domain_name(encode_utf8(s)) {
        Some(StunError::InvalidDnsName)
    } else if !dns && length_fault(encode_utf8(s).len(), s.len()) is Some {
        length_fault(encode_utf8(s).len(), s.len())
    } else {
        quoted_opaque_fault(quoted, opaque, s)
    }
}

/// The first fault that the checks for ASCII text find, `None` where the text
/// passes them all: they take text that is no host name by its bytes, 127 at most,
/// and take no quoted text or opaque string with a character beyond ASCII.
pub open spec fn ascii_fault(dns: bool, quoted: bool, opaque: bool, s: Seq<char>) -> Option<
    StunError,
> {
    if dns && !is_domain_name(encode_utf8(s)) {
        Some(StunError::InvalidDnsName)
    } else if !dns && encode_utf8(s).len() > MAX_CHARS {
        Some(StunError::StringTooLongConst)
    } else if quoted && !(vstd::utf8::is_ascii_chars(s) && quoted_text(s)) {
        Some(StunError::StringNotQuoted)
    } else if opaque && !(vstd::utf8::is_ascii_chars(s) && opaque_text(s)) {
        Some(StunError::StringNotOpaque)
    } else {
        None
    }
}

/// Text passes the checks exactly when it is what its kind asks for.
pub proof fn lemma_policy_fault(dns: bool, quoted: bool, opaque: bool, s: Seq<char>)
    ensures
        policy_fault(dns, quoted, opaque, s) is None <==> policy(dns, quoted, opaque, s),
        ascii_fault(dns, quoted, opaque, s) is None ==> policy(dns, quoted, opaque, s),
{
    lemma_length_fault(s);
    lemma_utf8_len(s);
}

/// Checks quoted text and opaque string, each where it is asked for.
pub fn validate_quoted_opaque<const Q: bool, const O: bool>(s: &str) -> (r: Result<(), StunError>)
    ensures
        match r {
            Ok(()) => quoted_opaque_fault(Q, O, s@) is None,
            Err(e) => quoted_opaque_fault(Q, O, s@) == Some(e),
        },
{
    if Q && !is_quoted_text(s) {
        return Err(StunError::StringNotQuoted);
    }
    if O && !is_opaque_string(s) {
        return Err(StunError::StringNotOpaque);
    }
    Ok(())
}

/// Text that has passed the checks of its kind. There is no other way to make one
/// than through these checks.
#[derive(Debug, Eq, PartialEq, Hash)]
pub struct Validated<T: AsStr, const DNS: bool, const QUOTED: bool, const OPAQUE: bool>(T);

impl<T: AsStr, const D: bool, const Q: bool, const O: bool> View for Validated<T, D, Q, O> {
    type V = Seq<char>;

    closed spec fn view(&self) -> Seq<char> {
        self.0.text()
    }
}

impl<T: AsStr, const D: bool, const Q: bool, const O: bool> Validated<T, D, Q, O> {
    #[verifier::type_invariant]
    spec fn checked(self) -> bool {
        policy(D, Q, O, self.0.text())
    }

    /// The text, which is what its kind asks for, and so no longer than a host name
    /// or than 127 characters can be.
    pub fn as_str(&self) -> (s: &str)
        ensures
            s@ == self@,
            policy(D, Q, O, s@),
            s.spec_bytes().len() <= if D {
                MAX_NAME_LENGTH
            } else {
                MAX_BYTES
            },
    {
        proof {
            use_type_invariant(self);
            lemma_utf8_len(self.0.text());
        }
        self.0.as_str()
    }

    /// The same text, borrowed.
    pub fn as_validated_str(&self) -> (v: Validated<&str, D, Q, O>)
        ensures
            v@ == self@,
    {
        proof {
            use_type_invariant(self);
        }
        Validated(self.0.as_str())
    }

    /// What holds the text.
    pub fn into_inner(self) -> (t: T)
        ensures
            t.text() == self@,
            policy(D, Q, O, t.text()),
    {
        proof {
            use_type_invariant(&self);
        }
        self.0
    }

    /// Checks the text that `value` holds.
    pub fn try_from(value: T) -> (r: Result<Self, StunError>)
        ensures
            match r {
                Ok(v) => v@ == value.text() && policy_fault(D, Q, O, value.text()) is None,
                Err(e) => policy_fault(D, Q, O, value.text()) == Some(e),
            },
    {
        let s: &str = value.as_str();
        if D {
            match validate_domain_name(s.as_bytes()) {
                Ok(_) => {},
                Err(e) => {
                    return Err(e);
                },
            }
        } else {
            match validate_str_len(s) {
                Ok(()) => {},
                Err(e) => {
                    return Err(e);
                },
            }
        }
        match validate_quoted_opaque::<Q, O>(s) {
            Ok(()) => {},
            Err(e) => {
                return Err(e);
            },
        }
        proof {
            lemma_policy_fault(D, Q, O, value.text());
        }
        Ok(Validated(value))
    }
}

impl<'a, const D: bool, const Q: bool, const O: bool> Clone for Validated<&'a str, D, Q, O> {
    fn clone(&self) -> (v: Self)
        ensures
            v@ == self@,
    {
        proof {
            use_type_invariant(self);
        }
        Validated(self.0)
    }
}

impl<'a, const D: bool, const Q: bool, const O: bool> Copy for Validated<&'a str, D, Q, O> {

}

impl<const D: bool, const Q: bool, const O: bool> Clone for Validated<String, D, Q, O> {
    fn clone(&self) -> (v: Self)
        ensures
            v@ == self@,
    {
        proof {
            use_type_invariant(self);
        }
        Validated(self.0.clone())
    }
}

/// What reading text of a kind from the bytes `b` gives: `Ok` with the text, or the
/// first fault. For a host name the bytes are checked as they are. Else they must
/// be 508 at most, then UTF-8, then 127 characters at most. Then come quoted text
/// and opaque string, each where it is asked for.
pub open spec fn read_text(dns: bool, quoted: bool, opaque: bool, b: Seq<u8>, r: Result<
    Seq<char>,
    StunError,
>) -> bool {
    match r {
        Ok(s) => {
            &&& valid_utf8(b)
            &&& s == decode_utf8(b)
            &&& encode_utf8(s) == b
            &&& policy(dns, quoted, opaque, s)
        },
        Err(e) => if dns && !is_domain_name(b) {
            e == StunError::InvalidDnsName
        } else if !dns && b.len() > MAX_BYTES {
            e == crate::attribute::string::error::string_too_long(b.len(), None)
        } else if !dns && !valid_utf8(b) {
            e == crate::attribute::string::length::utf8_error(b)
        } else if !dns && decode_utf8(b).len() > MAX_CHARS {
            e == crate::attribute::string::error::string_too_long(
                b.len(),
                Some(decode_utf8(b).len()),
            )
        } else {
            quoted_opaque_fault(quoted, opaque, decode_utf8(b)) == Some(e)
        },
    }
}

impl<'a, const D: bool, const Q: bool, const O: bool> Validated<&'a str, D, Q, O> {
    /// Checks text with the checks for ASCII text.
    pub fn const_try_from(s: &'a str) -> (r: Result<Self, StunError>)
        ensures
            match r {
                Ok(v) => v@ == s@ && ascii_fault(D, Q, O, s@) is None,
                Err(e) => ascii_fault(D, Q, O, s@) == Some(e),
            },
    {
        if D {
            match validate_domain_name(s.as_bytes()) {
                Ok(_) => {},
                Err(e) => {
                    return Err(e);
                },
            }
        } else if s.as_bytes().len() > MAX_CHARS {
            return Err(StunError::StringTooLongConst);
        }
        if Q && !is_quoted_text_ascii(s) {
            return Err(StunError::StringNotQuoted);
        }
        if O && !is_opaque_string_ascii(s) {
            return Err(StunError::StringNotOpaque);
        }
        proof {
            lemma_policy_fault(D, Q, O, s@);
        }
        Ok(Validated(s))
    }

    /// Reads text from bytes and checks it.
    pub fn try_from_bytes(b: &'a [u8]) -> (r: Result<Self, StunError>)
        ensures
            match r {
                Ok(v) => read_text(D, Q, O, b@, Ok(v@)),
                Err(e) => read_text(D, Q, O, b@, Err(e)),
            },
    {
        let s = if D {
            match validate_domain_name(b) {
                Ok(s) => s,
                Err(e) => {
                    return Err(e);
                },
            }
        } else {
            match validate_str_bytes(b) {
                Ok(s) => s,
                Err(e) => {
                    return Err(e);
                },
            }
        };
        proof {
            vstd::utf8::encode_utf8_decode_utf8(s@);
            vstd::utf8::encode_utf8_valid_utf8(s@);
        }
        match validate_quoted_opaque::<Q, O>(s) {
            Ok(()) => {},
            Err(e) => {
                return Err(e);
            },
        }
        Ok(Validated(s))
    }

    /// The same text in a string of its own.
    pub fn into_owned(self) -> (v: Validated<String, D, Q, O>)
        ensures
            v@ == self@,
    {
        proof {
            use_type_invariant(&self);
        }
        Validated(self.0.to_owned())
    }
}

} // verus!
