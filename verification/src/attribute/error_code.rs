//! The ERROR-CODE attribute, and the same with an address family.
use crate::attribute::addr::{family_byte, family_of, from_family, into_family, AddressFamily};
use crate::attribute::string::validated::{ascii_fault, policy_fault, read_text, Validated};
use crate::attribute::string::AsStr;
use crate::attribute::{
    declarable, encode_type_length, encoded, ensure_space, space_fault, spec_total_len, tlv, total_len,
    Attribute, DecodeAttribute, EncodeAttribute, Type,
};
use crate::error::StunError;
use crate::header::TransactionId;
use crate::parse::attribute::{padding_of, tl_seq};
use crate::wire::{copy_into, fill_zero, zeros};
use vstd::prelude::*;
use vstd::string::*;
use vstd::utf8::encode_utf8;

verus! {

/// The bytes before the reason phrase.
pub const CODE_LEN: usize = 4;

/// An error code from 300 up to 699 with the phrase that gives the reason.
#[derive(Debug, PartialEq, Eq, Hash)]
pub struct ErrorCode<T> {
    code: u16,
    reason_phrase: T,
}

/// The error for a code that is no error code: its hundreds and the rest.
pub open spec fn invalid_code(code: u16) -> StunError {
    StunError::InvalidErrorCode { class: ((code / 100) % 0x100) as u8, number: (code % 100) as u8 }
}

impl<T> ErrorCode<T> {
    /// The type of this attribute.
    pub const TYPE: u16 = 0x0009;

    #[verifier::type_invariant]
    spec fn in_range(self) -> bool {
        300 <= self.code < 700
    }

    pub closed spec fn spec_code(&self) -> u16 {
        self.code
    }

    /// What holds the reason phrase.
    pub closed spec fn reason(&self) -> T {
        self.reason_phrase
    }

    /// An error code, which must be from 300 up to 699.
    pub fn new(code: u16, reason_phrase: T) -> (r: Result<Self, StunError>)
        ensures
            match r {
                Ok(c) => 300 <= code < 700 && c.spec_code() == code && c.reason() == reason_phrase,
                Err(e) => !(300 <= code < 700) && e == invalid_code(code),
            },
    {
        if 300 <= code && code < 700 {
            return Ok(Self { code, reason_phrase });
        }
        Err(
            StunError::InvalidErrorCode {
                class: ((code / 100) % 0x100) as u8,
                number: (code % 100) as u8,
            },
        )
    }

    pub fn code(&self) -> (c: u16)
        ensures
            c == self.spec_code(),
            300 <= c < 700,
    {
        proof {
            use_type_invariant(self);
        }
        self.code
    }

    pub fn into_inner(self) -> (t: T)
        ensures
            t == self.reason(),
    {
        self.reason_phrase
    }
}

impl<T: AsStr> ErrorCode<T> {
    pub fn reason_phrase(&self) -> (s: &str)
        ensures
            s@ == self.reason().text(),
    {
        self.reason_phrase.as_str()
    }

    /// Checks that the reason phrase has 127 characters at most, and gives the
    /// error code with its phrase checked.
    pub fn validate_reason(&self) -> (r: Result<
        ErrorCode<Validated<&str, false, false, false>>,
        StunError,
    >)
        ensures
            match r {
                Ok(c) => {
                    &&& c.spec_code() == self.spec_code()
                    &&& c.reason()@ == self.reason().text()
                    &&& policy_fault(false, false, false, self.reason().text()) is None
                },
                Err(e) => policy_fault(false, false, false, self.reason().text()) == Some(e),
            },
    {
        proof {
            use_type_invariant(self);
        }
        match Validated::<&str, false, false, false>::try_from(self.reason_phrase.as_str()) {
            Ok(reason_phrase) => Ok(ErrorCode { code: self.code, reason_phrase }),
            Err(e) => Err(e),
        }
    }
}

impl<'a, const Q: bool, const O: bool> ErrorCode<Validated<&'a str, false, Q, O>> {
    /// An error code, which must be from 300 up to 699, with a phrase that has
    /// been checked.
    pub fn const_new(code: u16, reason_phrase: Validated<&'a str, false, Q, O>) -> (r: Result<
        Self,
        StunError,
    >)
        ensures
            match r {
                Ok(c) => 300 <= code < 700 && c.spec_code() == code && c.reason() == reason_phrase,
                Err(e) => !(300 <= code < 700) && e == invalid_code(code),
            },
    {
        Self::new(code, reason_phrase)
    }
}

/// The reason phrase registered for an error code.
pub open spec fn registered_reason(code: u16) -> Option<Seq<char>> {
    if code == 300 {
        Some("Try Alternate"@)
    } else if code == 400 {
        Some("Bad Request"@)
    } else if code == 401 {
        Some("Unauthenticated"@)
    } else if code == 403 {
        Some("Forbidden"@)
    } else if code == 405 {
        Some("Mobility Forbidden"@)
    } else if code == 420 {
        Some("Unknown Attribute"@)
    } else if code == 437 {
        Some("Allocation Mismatch"@)
    } else if code == 438 {
        Some("Stale Nonce"@)
    } else if code == 440 {
        Some("Address Family not Supported"@)
    } else if code == 441 {
        Some("Wrong Credentials"@)
    } else if code == 442 {
        Some("Unsupported Transport Protocol"@)
    } else if code == 443 {
        Some("Peer Address Family Mismatch"@)
    } else if code == 446 {
        Some("Connection Already Exists"@)
    } else if code == 447 {
        Some("Connection Timeout or Failure"@)
    } else if code == 486 {
        Some("Allocation Quota Reached"@)
    } else if code == 487 {
        Some("Role Conflict"@)
    } else if code == 500 {
        Some("Server Error"@)
    } else if code == 508 {
        Some("Insufficient Capacity"@)
    } else {
        None
    }
}

/// The reason phrase registered for an error code.
pub fn reason_for(code: u16) -> (r: Option<&'static str>)
    ensures
        match r {
            Some(s) => registered_reason(code) == Some(s@),
            None => registered_reason(code) is None,
        },
{
    if code == 300 {
        Some("Try Alternate")
    } else if code == 400 {
        Some("Bad Request")
    } else if code == 401 {
        Some("Unauthenticated")
    } else if code == 403 {
        Some("Forbidden")
    } else if code == 405 {
        Some("Mobility Forbidden")
    } else if code == 420 {
        Some("Unknown Attribute")
    } else if code == 437 {
        Some("Allocation Mismatch")
    } else if code == 438 {
        Some("Stale Nonce")
    } else if code == 440 {
        Some("Address Family not Supported")
    } else if code == 441 {
        Some("Wrong Credentials")
    } else if code == 442 {
        Some("Unsupported Transport Protocol")
    } else if code == 443 {
        Some("Peer Address Family Mismatch")
    } else if code == 446 {
        Some("Connection Already Exists")
    } else if code == 447 {
        Some("Connection Timeout or Failure")
    } else if code == 486 {
        Some("Allocation Quota Reached")
    } else if code == 487 {
        Some("Role Conflict")
    } else if code == 500 {
        Some("Server Error")
    } else if code == 508 {
        Some("Insufficient Capacity")
    } else {
        None
    }
}

impl ErrorCode<Validated<&'static str, false, true, true>> {
    /// A registered error code with its reason phrase, where the phrase passes the
    /// checks for ASCII text.
    pub fn from_status_code(code: u16) -> (r: Option<Self>)
        ensures
            match r {
                Some(c) => {
                    &&& c.spec_code() == code
                    &&& registered_reason(code) == Some(c.reason()@)
                    &&& ascii_fault(false, true, true, c.reason()@) is None
                },
                None => {
                    ||| registered_reason(code) is None
                    ||| ascii_fault(false, true, true, registered_reason(code)->Some_0) is Some
                    ||| !(300 <= code < 700)
                },
            },
    {
        match reason_for(code) {
            None => None,
            Some(phrase) => match Validated::<&'static str, false, true, true>::const_try_from(
                phrase,
            ) {
                Err(_) => None,
                Ok(checked) => match Self::new(code, checked) {
                    Ok(c) => Some(c),
                    Err(_) => None,
                },
            },
        }
    }
}

/// The four bytes before the reason phrase: `high`, a zero, the hundreds of the
/// code, and the rest of it.
pub open spec fn code_bytes(code: u16, high: u8) -> Seq<u8> {
    seq![high, 0u8, (code / 100) as u8, (code % 100) as u8]
}

/// The value of an error code attribute.
pub open spec fn error_code_value(code: u16, high: u8, reason: Seq<char>) -> Seq<u8> {
    code_bytes(code, high) + encode_utf8(reason)
}

/// The error that encoding an error code with the phrase `reason` into `avail`
/// bytes gives: the phrase must have 127 characters at most, then comes the space.
pub open spec fn error_code_fault(reason: Seq<char>, avail: nat) -> Option<StunError> {
    if policy_fault(false, false, false, reason) is Some {
        policy_fault(false, false, false, reason)
    } else {
        space_fault(
            spec_total_len(4 + encode_utf8(reason).len() as int),
            (4 + encode_utf8(reason).len()) as u16,
            avail as int,
        )
    }
}

/// Writes an error code attribute of type `t`, with `high` as the first byte of its
/// value.
pub fn encode_error_code<'a, const Q: bool, const O: bool>(
    t: Type,
    error_code: u16,
    reason_phrase: Validated<&str, false, Q, O>,
    high: u8,
    dst: &'a mut [u8],
) -> (r: Result<&'a mut [u8], StunError>)
    requires
        error_code < 700,
    ensures
        match r {
            Ok(rest) => encoded(
                t,
                error_code_value(error_code, high, reason_phrase@),
                error_code_fault(reason_phrase@, old(dst)@.len()),
                old(dst)@,
                final(dst)@,
                Ok((rest@, final(rest)@)),
            ),
            Err(e) => encoded(
                t,
                error_code_value(error_code, high, reason_phrase@),
                error_code_fault(reason_phrase@, old(dst)@.len()),
                old(dst)@,
                final(dst)@,
                Err(e),
            ),
        },
{
    let reason = reason_phrase.as_str().as_bytes();
    proof {
        crate::attribute::string::length::lemma_utf8_len(reason_phrase@);
        crate::attribute::string::validated::lemma_policy_fault(false, false, false, reason_phrase@);
        crate::attribute::string::validated::lemma_policy_fault(false, Q, O, reason_phrase@);
    }
    let len = (CODE_LEN + reason.len()) as u16;
    let total_len = total_len(len);
    match ensure_space(total_len, len, dst.len()) {
        Ok(()) => {},
        Err(e) => {
            return Err(e);
        },
    }
    let (attr, rest) = dst.split_at_mut(total_len);
    let vp = encode_type_length(t, len, attr);
    let (code, phrase_pad) = vp.split_at_mut(CODE_LEN);
    let bytes: [u8; 4] = [high, 0, (error_code / 100) as u8, (error_code % 100) as u8];
    assert(bytes@ =~= code_bytes(error_code, high));
    copy_into(code, &bytes);
    let (reason_buf, pad) = phrase_pad.split_at_mut(reason.len());
    copy_into(reason_buf, reason);
    fill_zero(pad);
    proof {
        let value = error_code_value(error_code, high, reason_phrase@);
        assert(tlv(t, value) =~= tl_seq(t, len) + (code_bytes(error_code, high) + (reason@ + zeros(
            padding_of(len as int) as nat,
        ))));
    }
    Ok(rest)
}

/// What decoding the value of an error code attribute gives: the code, the family
/// where one is asked for, and the reason phrase. The hundreds are the last three
/// bits of the third byte and must be 3, 4 or 5; the rest is the fourth byte and
/// must be under 100; the family is the first byte.
pub open spec fn decoded_error_code(
    src: Seq<u8>,
    with_family: bool,
    r: Result<(u16, Option<AddressFamily>, Seq<char>), StunError>,
) -> bool {
    if src.len() < 4 {
        r == Err::<(u16, Option<AddressFamily>, Seq<char>), StunError>(StunError::ErrorCodeTooBig)
    } else if !(3 <= src[2] % 8 < 6) || src[3] > 99 {
        r == Err::<(u16, Option<AddressFamily>, Seq<char>), StunError>(
            StunError::InvalidErrorCode { class: src[2] % 8, number: src[3] },
        )
    } else if with_family && family_of(src[0]) is Err {
        r == Err::<(u16, Option<AddressFamily>, Seq<char>), StunError>(family_of(src[0])->Err_0)
    } else {
        match r {
            Ok((code, family, reason)) => {
                &&& code == (src[2] % 8) * 100 + src[3]
                &&& family == if with_family {
                    Some(family_of(src[0])->Ok_0)
                } else {
                    None
                }
                &&& read_text(false, false, false, src.skip(4), Ok(reason))
            },
            Err(e) => read_text(false, false, false, src.skip(4), Err(e)),
        }
    }
}

/// Reads an error code, with the family where one is asked for.
pub fn decode_error_code<'a>(src: &'a [u8], with_family: bool) -> (r: Result<
    (ErrorCode<Validated<&'a str, false, false, false>>, Option<AddressFamily>),
    StunError,
>)
    ensures
        match r {
            Ok((code, family)) => decoded_error_code(
                src@,
                with_family,
                Ok((code.spec_code(), family, code.reason()@)),
            ),
            Err(e) => decoded_error_code(src@, with_family, Err(e)),
        },
{
    if src.len() < CODE_LEN {
        return Err(StunError::ErrorCodeTooBig);
    }
    let class = src[2] % 8;
    let number = src[3];
    if class < 3 || class >= 6 || number > 99 {
        return Err(StunError::InvalidErrorCode { class, number });
    }
    let family = if with_family {
        match into_family(src[0]) {
            Ok(family) => Some(family),
            Err(e) => {
                return Err(e);
            },
        }
    } else {
        None
    };
    let code = class as u16 * 100 + number as u16;
    let (_, phrase) = src.split_at(CODE_LEN);
    assert(phrase@ == src@.skip(4));
    match Validated::<&'a str, false, false, false>::try_from_bytes(phrase) {
        Ok(reason_phrase) => Ok((ErrorCode { code, reason_phrase }, family)),
        Err(e) => Err(e),
    }
}

impl<T: AsStr> Attribute for ErrorCode<T> {
    open spec fn spec_type(&self) -> Type {
        Type(Type::ERROR_CODE)
    }

    fn attribute_type(&self) -> (t: Type) {
        Type(Type::ERROR_CODE)
    }
}

impl<T: AsStr> EncodeAttribute for ErrorCode<T> {
    open spec fn wire_value(&self, transaction_id: TransactionId) -> Seq<u8> {
        declarable(error_code_value(self.spec_code(), 0, self.reason().text()))
    }

    open spec fn fault(&self, avail: nat) -> Option<StunError> {
        error_code_fault(self.reason().text(), avail)
    }

    fn encoded_value_len(&self) -> (len: u16) {
        ((self.reason_phrase().as_bytes().len() % 0x1_0000 + CODE_LEN) % 0x1_0000) as u16
    }

    fn encode<'a>(&self, dst: &'a mut [u8], transaction_id: &TransactionId) -> (r: Result<
        &'a mut [u8],
        StunError,
    >) {
        match self.validate_reason() {
            Ok(checked) => {
                let code = checked.code();
                proof {
                    let value = error_code_value(self.spec_code(), 0, self.reason().text());
                    crate::attribute::string::length::lemma_utf8_len(self.reason().text());
                    crate::attribute::string::validated::lemma_policy_fault(
                        false,
                        false,
                        false,
                        self.reason().text(),
                    );
                    assert(declarable(value) =~= value);
                }
                encode_error_code(Type(Type::ERROR_CODE), code, checked.into_inner(), 0, dst)
            },
            Err(e) => Err(e),
        }
    }
}

impl<'d> DecodeAttribute<'d> for ErrorCode<Validated<&'d str, false, false, false>> {
    open spec fn decoded(attr: Type, src: Seq<u8>, transaction_id: TransactionId, r: Result<
        Self,
        StunError,
    >) -> bool {
        match r {
            Ok(c) => decoded_error_code(src, false, Ok((c.spec_code(), None, c.reason()@))),
            Err(e) => decoded_error_code(src, false, Err(e)),
        }
    }

    fn decode(attr: Type, src: &'d [u8], transaction_id: &TransactionId) -> (r: Result<
        Self,
        StunError,
    >) {
        match decode_error_code(src, false) {
            Ok((code, _)) => Ok(code),
            Err(e) => Err(e),
        }
    }
}

/// An error code that is about an address family.
#[derive(Debug, PartialEq, Eq, Hash)]
pub struct AddressErrorCode<T> {
    pub family: AddressFamily,
    pub error: ErrorCode<T>,
}

impl<T> AddressErrorCode<T> {
    /// The type of this attribute.
    pub const TYPE: u16 = 0x8001;

    pub fn new(family: AddressFamily, code: ErrorCode<T>) -> (a: Self)
        ensures
            a.family == family,
            a.error == code,
    {
        Self { family, error: code }
    }

    pub fn family(&self) -> (f: AddressFamily)
        ensures
            f == self.family,
    {
        self.family
    }

    pub fn code(&self) -> (c: u16)
        ensures
            c == self.error.spec_code(),
    {
        self.error.code()
    }

    pub fn into_inner(self) -> (t: T)
        ensures
            t == self.error.reason(),
    {
        self.error.into_inner()
    }
}

impl<T: AsStr> AddressErrorCode<T> {
    pub fn reason_phrase(&self) -> (s: &str)
        ensures
            s@ == self.error.reason().text(),
    {
        self.error.reason_phrase()
    }
}

impl<T: AsStr> Attribute for AddressErrorCode<T> {
    open spec fn spec_type(&self) -> Type {
        Type(Type::ADDRESS_ERROR_CODE)
    }

    fn attribute_type(&self) -> (t: Type) {
        Type(Type::ADDRESS_ERROR_CODE)
    }
}

impl<T: AsStr> EncodeAttribute for AddressErrorCode<T> {
    open spec fn wire_value(&self, transaction_id: TransactionId) -> Seq<u8> {
        declarable(
            error_code_value(
                self.error.spec_code(),
                family_byte(self.family),
                self.error.reason().text(),
            ),
        )
    }

    open spec fn fault(&self, avail: nat) -> Option<StunError> {
        error_code_fault(self.error.reason().text(), avail)
    }

    fn encoded_value_len(&self) -> (len: u16) {
        ((self.reason_phrase().as_bytes().len() % 0x1_0000 + CODE_LEN) % 0x1_0000) as u16
    }

    fn encode<'a>(&self, dst: &'a mut [u8], transaction_id: &TransactionId) -> (r: Result<
        &'a mut [u8],
        StunError,
    >) {
        match self.error.validate_reason() {
            Ok(checked) => {
                let code = checked.code();
                proof {
                    let value = error_code_value(
                        self.error.spec_code(),
                        family_byte(self.family),
                        self.error.reason().text(),
                    );
                    crate::attribute::string::length::lemma_utf8_len(self.error.reason().text());
                    crate::attribute::string::validated::lemma_policy_fault(
                        false,
                        false,
                        false,
                        self.error.reason().text(),
                    );
                    assert(declarable(value) =~= value);
                }
                encode_error_code(
                    Type(Type::ADDRESS_ERROR_CODE),
                    code,
                    checked.into_inner(),
                    from_family(self.family),
                    dst,
                )
            },
            Err(e) => Err(e),
        }
    }
}

impl<'d> DecodeAttribute<'d> for AddressErrorCode<Validated<&'d str, false, false, false>> {
    open spec fn decoded(attr: Type, src: Seq<u8>, transaction_id: TransactionId, r: Result<
        Self,
        StunError,
    >) -> bool {
        match r {
            Ok(a) => decoded_error_code(
                src,
                true,
                Ok((a.error.spec_code(), Some(a.family), a.error.reason()@)),
            ),
            Err(e) => decoded_error_code(src, true, Err(e)),
        }
    }

    fn decode(attr: Type, src: &'d [u8], transaction_id: &TransactionId) -> (r: Result<
        Self,
        StunError,
    >) {
        match decode_error_code(src, true) {
            Ok((code, Some(family))) => Ok(Self::new(family, code)),
            Ok((_, None)) => unreached(),
            Err(e) => Err(e),
        }
    }
}

} // verus!
