//! The attributes whose value is text.
use crate::attribute::string::validated::{policy_fault, read_text, Validated};
use crate::attribute::string::AsStr;
use crate::attribute::{
    declarable, encode_variable_len, space_fault, spec_total_len, Attribute, DecodeAttribute,
    EncodeAttribute, Type,
};
use crate::error::StunError;
use crate::header::TransactionId;
use vstd::prelude::*;
use vstd::string::*;
use vstd::utf8::encode_utf8;

verus! {

/// An attribute of type `CODE` whose value is text that must be a host name
/// (`DNS`), quoted text (`QUOTED`), an opaque string (`OPAQUE`).
#[derive(Debug, PartialEq, Eq, Hash)]
pub struct TextAttribute<
    T,
    const CODE: u16,
    const DNS: bool,
    const QUOTED: bool,
    const OPAQUE: bool,
> {
    pub inner: T,
}

pub type Realm<T> = TextAttribute<T, 0x0014, false, true, true>;

pub type Username<T> = TextAttribute<T, 0x0006, false, false, true>;

pub type Nonce<T> = TextAttribute<T, 0x0015, false, true, false>;

pub type Software<T> = TextAttribute<T, 0x8022, false, false, false>;

pub type AlternateDomain<T> = TextAttribute<T, 0x8003, true, false, false>;

impl<T, const CODE: u16, const D: bool, const Q: bool, const O: bool> TextAttribute<T, CODE, D, Q, O> {
    pub fn new(inner: T) -> (a: Self)
        ensures
            a.inner == inner,
    {
        Self { inner }
    }

    pub fn into_inner(self) -> (inner: T)
        ensures
            inner == self.inner,
    {
        self.inner
    }

    /// The type of these attributes.
    pub fn attr_type() -> (t: Type)
        ensures
            t == Type(CODE),
    {
        Type(CODE)
    }
}

impl<T: AsStr, const CODE: u16, const D: bool, const Q: bool, const O: bool> TextAttribute<
    T,
    CODE,
    D,
    Q,
    O,
> {
    pub fn as_str(&self) -> (s: &str)
        ensures
            s@ == self.inner.text(),
    {
        self.inner.as_str()
    }

    /// Checks the text, and gives the attribute with its text checked.
    pub fn validate(&self) -> (r: Result<
        TextAttribute<Validated<&str, D, Q, O>, CODE, D, Q, O>,
        StunError,
    >)
        ensures
            match r {
                Ok(a) => a.inner@ == self.inner.text() && policy_fault(D, Q, O, self.inner.text())
                    is None,
                Err(e) => policy_fault(D, Q, O, self.inner.text()) == Some(e),
            },
    {
        match Validated::<&str, D, Q, O>::try_from(self.inner.as_str()) {
            Ok(v) => Ok(TextAttribute { inner: v }),
            Err(e) => Err(e),
        }
    }
}

impl<T: AsStr, const CODE: u16, const D: bool, const Q: bool, const O: bool> Attribute for TextAttribute<
    T,
    CODE,
    D,
    Q,
    O,
> {
    open spec fn spec_type(&self) -> Type {
        Type(CODE)
    }

    fn attribute_type(&self) -> (t: Type) {
        Type(CODE)
    }
}

impl<T: AsStr, const CODE: u16, const D: bool, const Q: bool, const O: bool> EncodeAttribute for TextAttribute<
    T,
    CODE,
    D,
    Q,
    O,
> {
    open spec fn wire_value(&self, transaction_id: TransactionId) -> Seq<u8> {
        declarable(encode_utf8(self.inner.text()))
    }

    /// The text is checked again, whatever it was when the attribute was made;
    /// then the space.
    open spec fn fault(&self, avail: nat) -> Option<StunError> {
        if policy_fault(D, Q, O, self.inner.text()) is Some {
            policy_fault(D, Q, O, self.inner.text())
        } else {
            space_fault(
                spec_total_len(declarable(encode_utf8(self.inner.text())).len() as int),
                declarable(encode_utf8(self.inner.text())).len() as u16,
                avail as int,
            )
        }
    }

    fn encoded_value_len(&self) -> (len: u16) {
        (self.as_str().as_bytes().len() % 0x1_0000) as u16
    }

    fn encode<'a>(&self, dst: &'a mut [u8], transaction_id: &TransactionId) -> (r: Result<
        &'a mut [u8],
        StunError,
    >) {
        match self.validate() {
            Ok(checked) => encode_variable_len(Type(CODE), checked.inner.as_str().as_bytes(), dst),
            Err(e) => Err(e),
        }
    }
}

impl<'d, const CODE: u16, const D: bool, const Q: bool, const O: bool> DecodeAttribute<
    'd,
> for TextAttribute<Validated<&'d str, D, Q, O>, CODE, D, Q, O> {
    open spec fn decoded(attr: Type, src: Seq<u8>, transaction_id: TransactionId, r: Result<
        Self,
        StunError,
    >) -> bool {
        match r {
            Ok(a) => read_text(D, Q, O, src, Ok(a.inner@)),
            Err(e) => read_text(D, Q, O, src, Err(e)),
        }
    }

    fn decode(attr: Type, src: &'d [u8], transaction_id: &TransactionId) -> (r: Result<
        Self,
        StunError,
    >) {
        match Validated::<&'d str, D, Q, O>::try_from_bytes(src) {
            Ok(v) => Ok(TextAttribute { inner: v }),
            Err(e) => Err(e),
        }
    }
}

} // verus!
