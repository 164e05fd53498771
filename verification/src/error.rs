//! The errors that the codec reports.
use crate::attribute::Type;
use vstd::prelude::*;

verus! {

/// The six kinds that every error falls under.
#[allow(inconsistent_fields)]
#[derive(Debug, PartialEq, Eq, Copy, Clone, Structural)]
pub enum StunErrorKind {
    InvalidParameter,
    ValidationFailed,
    ValueTooLong,
    BufferTooSmall,
    TooManyAttributes,
    MagicCookie,
}

impl StunErrorKind {
    /// A short description of the kind.
    pub fn description_str(&self) -> (s: &'static str)
        ensures
            s@ == self.description(),
    {
        match *self {
            Self::InvalidParameter => "invalid parameter",
            Self::ValidationFailed => "validation failed",
            Self::ValueTooLong => "value is too long",
            Self::BufferTooSmall => "buffer is too small for the message",
            Self::TooManyAttributes => "attribute buffer is too small for the message",
            Self::MagicCookie => "magic cookie doesn't match",
        }
    }

    /// The text that [`Self::description_str`] returns.
    pub open spec fn description(&self) -> Seq<char> {
        match *self {
            Self::InvalidParameter => "invalid parameter"@,
            Self::ValidationFailed => "validation failed"@,
            Self::ValueTooLong => "value is too long"@,
            Self::BufferTooSmall => "buffer is too small for the message"@,
            Self::TooManyAttributes => "attribute buffer is too small for the message"@,
            Self::MagicCookie => "magic cookie doesn't match"@,
        }
    }
}

/// Anything that falls under one of the error kinds.
pub trait ErrorKind {
    /// The kind of this error.
    spec fn kind(&self) -> StunErrorKind;

    fn error_kind(&self) -> (k: StunErrorKind)
        ensures
            k == self.kind(),
    ;
}

/// What went wrong, with the values needed to say so precisely.
#[allow(inconsistent_fields)]
#[derive(Debug, PartialEq, Eq, Copy, Clone, Structural)]
pub enum StunError {
    /// The two most significant bits of the message type are not zero.
    MsbNotZero { bits: u8 },
    /// The attribute length in the header is not a multiple of 4.
    InvalidLen { len: u16 },
    /// A buffer of `len` bytes cannot hold a 20-byte header.
    HeaderTooBig { len: usize },
    /// The header carries `cookie` in place of the magic cookie.
    MagicCookie { cookie: u32 },
    /// The header announces `header` bytes of attributes, the buffer holds `actual`.
    BufferLenMismatch { header: u16, actual: u16 },
    /// The attribute whose value starts at `off` declares `len` bytes, `rem` are left.
    AttributeTooBig { attr: Type, off: u16, rem: u16, len: u16 },
    /// The container has no slot left for the next attribute.
    TooManyAttributes,
    /// The buffer cannot hold the type and length of an attribute.
    TypeLenTooBig,
    /// The buffer holds the type and length, but `rem` bytes cannot hold `len` of value.
    BufferTooSmallForValue { rem: u16, len: u16 },
    /// A value of `len` bytes is over the longest value an attribute can carry.
    ValueTooLong { len: usize },
    /// The buffer cannot hold the four bytes that start an address.
    AddressHeaderTooBig,
    /// An address of the given family does not fit `actual` bytes.
    IpLenMismatch { is_v6: bool, actual: u16 },
    /// The family byte is neither IPv4 nor IPv6.
    InvalidFamily { family: u8 },
    /// An address family attribute of `actual` bytes in place of 4.
    FamilyLenMismatch { actual: usize },
    /// An integer attribute of `actual` bytes in place of `expected`.
    IntegerLenMismatch { expected: u16, actual: u16 },
    /// A fixed-size attribute of `actual` bytes in place of `expected`.
    FixedLenMismatch { expected: u16, actual: u16 },
    /// An attribute without a value was given the wrong number of bytes.
    EmptyLenMismatch { actual: usize },
    /// The buffer cannot hold the four bytes that start an error code.
    ErrorCodeTooBig,
    /// The class is not between 3 and 6, or the number not under 100.
    InvalidErrorCode { class: u8, number: u8 },
    /// A password algorithm starts with fewer than four bytes.
    PassAlgoBadHeader,
    /// A password algorithm declares more parameter bytes than follow.
    PassAlgoBadLen,
    /// The parameters of a password algorithm are over the longest value.
    ParamsTooLong,
    /// The buffer cannot hold the four bytes that start a password algorithm.
    PasswordAlgorithmTooBig,
    /// A password algorithm declares `expected` parameter bytes, `actual` follow.
    PasswordLenMismatch { expected: u16, actual: u16 },
    /// A list of attribute types with an odd number of bytes.
    InvalidAttrTypeArray,
    /// The text is not a host name.
    InvalidDnsName,
    /// The bytes are UTF-8 up to `valid_up_to`; `error_len` is the length of the
    /// invalid sequence there, or `None` where the input ends inside a character.
    Utf8Error { valid_up_to: u16, error_len: Option<u8> },
    /// The text is over 127 characters: `chars` where they were counted.
    StringTooLong { bytes: u16, chars: Option<u8> },
    /// The text is over 127 bytes.
    StringTooLongConst,
    /// The text is not a sequence of qdtext and quoted-pair.
    StringNotQuoted,
    /// The text does not meet the OpaqueString profile.
    StringNotOpaque,
}

impl ErrorKind for StunError {
    open spec fn kind(&self) -> StunErrorKind {
        match *self {
            StunError::MsbNotZero { .. } => StunErrorKind::InvalidParameter,
            StunError::InvalidLen { .. } => StunErrorKind::InvalidParameter,
            StunError::HeaderTooBig { .. } => StunErrorKind::BufferTooSmall,
            StunError::MagicCookie { .. } => StunErrorKind::MagicCookie,
            StunError::BufferLenMismatch { .. } => StunErrorKind::InvalidParameter,
            StunError::AttributeTooBig { .. } => StunErrorKind::BufferTooSmall,
            StunError::TooManyAttributes => StunErrorKind::TooManyAttributes,
            StunError::TypeLenTooBig => StunErrorKind::BufferTooSmall,
            StunError::BufferTooSmallForValue { .. } => StunErrorKind::BufferTooSmall,
            StunError::ValueTooLong { .. } => StunErrorKind::ValueTooLong,
            StunError::AddressHeaderTooBig => StunErrorKind::BufferTooSmall,
            StunError::IpLenMismatch { .. } => StunErrorKind::BufferTooSmall,
            StunError::InvalidFamily { .. } => StunErrorKind::InvalidParameter,
            StunError::FamilyLenMismatch { .. } => StunErrorKind::InvalidParameter,
            StunError::IntegerLenMismatch { .. } => StunErrorKind::InvalidParameter,
            StunError::FixedLenMismatch { .. } => StunErrorKind::BufferTooSmall,
            StunError::EmptyLenMismatch { .. } => StunErrorKind::InvalidParameter,
            StunError::ErrorCodeTooBig => StunErrorKind::BufferTooSmall,
            StunError::InvalidErrorCode { .. } => StunErrorKind::InvalidParameter,
            StunError::PassAlgoBadHeader => StunErrorKind::InvalidParameter,
            StunError::PassAlgoBadLen => StunErrorKind::InvalidParameter,
            StunError::ParamsTooLong => StunErrorKind::ValueTooLong,
            StunError::PasswordAlgorithmTooBig => StunErrorKind::BufferTooSmall,
            StunError::PasswordLenMismatch { .. } => StunErrorKind::InvalidParameter,
            StunError::InvalidAttrTypeArray => StunErrorKind::InvalidParameter,
            StunError::InvalidDnsName => StunErrorKind::InvalidParameter,
            StunError::Utf8Error { .. } => StunErrorKind::InvalidParameter,
            StunError::StringTooLong { .. } => StunErrorKind::ValueTooLong,
            StunError::StringTooLongConst => StunErrorKind::ValueTooLong,
            StunError::StringNotQuoted => StunErrorKind::InvalidParameter,
            StunError::StringNotOpaque => StunErrorKind::InvalidParameter,
        }
    }

    fn error_kind(&self) -> (k: StunErrorKind) {
        match *self {
            StunError::MsbNotZero { .. }
            | StunError::InvalidLen { .. }
            | StunError::BufferLenMismatch { .. }
            | StunError::InvalidFamily { .. }
            | StunError::FamilyLenMismatch { .. }
            | StunError::IntegerLenMismatch { .. }
            | StunError::EmptyLenMismatch { .. }
            | StunError::InvalidErrorCode { .. }
            | StunError::PassAlgoBadHeader
            | StunError::PassAlgoBadLen
            | StunError::PasswordLenMismatch { .. }
            | StunError::InvalidAttrTypeArray
            | StunError::InvalidDnsName
            | StunError::Utf8Error { .. }
            | StunError::StringNotQuoted
            | StunError::StringNotOpaque => StunErrorKind::InvalidParameter,
            StunError::HeaderTooBig { .. }
            | StunError::AttributeTooBig { .. }
            | StunError::TypeLenTooBig
            | StunError::BufferTooSmallForValue { .. }
            | StunError::AddressHeaderTooBig
            | StunError::IpLenMismatch { .. }
            | StunError::FixedLenMismatch { .. }
            | StunError::ErrorCodeTooBig
            | StunError::PasswordAlgorithmTooBig => StunErrorKind::BufferTooSmall,
            StunError::ValueTooLong { .. }
            | StunError::ParamsTooLong
            | StunError::StringTooLong { .. }
            | StunError::StringTooLongConst => StunErrorKind::ValueTooLong,
            StunError::TooManyAttributes => StunErrorKind::TooManyAttributes,
            StunError::MagicCookie { .. } => StunErrorKind::MagicCookie,
        }
    }
}

} // verus!
