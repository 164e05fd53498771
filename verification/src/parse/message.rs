//! A whole message: its header checked, its attributes scanned.
use crate::attribute::{DecodeAttribute, Type};
use crate::error::StunError;
use crate::header::{decoded, Class, Header, Method, TransactionId};
use crate::parse::attribute::{
    laid_out, lemma_scan_from_laid_out, lemma_scan_unbounded, padding_of, scan, Container,
    RawAttribute, MAX_SOURCE_LEN,
};
use crate::wire::{be16_seq, u16_be_bytes};
use crate::MAGIC_COOKIE;
use vstd::prelude::*;
use vstd::slice::slice_subrange;

verus! {

/// What is left to check once the header is read: the magic cookie, then the
/// length that the header declares against the bytes that follow it, then the
/// attributes themselves.
pub open spec fn parsed_attrs(header: Header, body: Seq<u8>, slots: Option<nat>) -> Result<
    Seq<RawAttribute>,
    StunError,
> {
    if header.magic_cookie != MAGIC_COOKIE {
        Err(StunError::MagicCookie { cookie: header.magic_cookie })
    } else if header.length != body.len() {
        Err(
            StunError::BufferLenMismatch {
                header: header.length,
                actual: if body.len() > 0xFFFF {
                    0xFFFFu16
                } else {
                    body.len() as u16
                },
            },
        )
    } else {
        scan(body, slots)
    }
}

/// What parsing a message gives: its header and attributes, or the first fault.
pub open spec fn parsed(src: Seq<u8>, slots: Option<nat>) -> Result<
    (Header, Seq<RawAttribute>),
    StunError,
> {
    if src.len() < 20 {
        Err(StunError::HeaderTooBig { len: src.len() as usize })
    } else {
        match decoded(src.take(20)) {
            Err(e) => Err(e),
            Ok(header) => match parsed_attrs(header, src.skip(20), slots) {
                Err(e) => Err(e),
                Ok(attrs) => Ok((header, attrs)),
            },
        }
    }
}

/// A message that has been parsed: a view of the buffer it was parsed from.
pub struct MessageParser<'src, 'attr> {
    class: Class,
    method: Method,
    transaction_id: TransactionId,
    src: &'src [u8],
    attrs: &'attr [RawAttribute],
}

/// One attribute of a message as plain values.
pub struct ItemView {
    pub attr: Type,
    /// The value, without padding.
    pub value: Seq<u8>,
    /// The attribute section up to the type of this attribute.
    pub attrs_up_to: Seq<u8>,
}

/// The attribute of `src` that `rec` describes.
pub open spec fn item_of(src: Seq<u8>, rec: RawAttribute) -> ItemView {
    ItemView {
        attr: rec.attr,
        value: src.subrange(rec.off as int, rec.off + rec.len),
        attrs_up_to: src.subrange(0, rec.off - 4),
    }
}

/// One attribute of a message: its type, its value, and what stands before it.
pub struct Item<'src> {
    attr: Type,
    value: &'src [u8],
    attrs_up_to: &'src [u8],
}

impl<'src> View for Item<'src> {
    type V = ItemView;

    closed spec fn view(&self) -> ItemView {
        ItemView { attr: self.attr, value: self.value@, attrs_up_to: self.attrs_up_to@ }
    }
}

impl<'src> Item<'src> {
    #[verifier::type_invariant]
    spec fn within_message(self) -> bool {
        self.attrs_up_to@.len() + 4 + self.value@.len() + padding_of(self.value@.len() as int)
            <= MAX_SOURCE_LEN
    }

    pub fn attr(&self) -> (t: Type)
        ensures
            t == self@.attr,
    {
        self.attr
    }

    pub fn value(&self) -> (v: &'src [u8])
        ensures
            v@ == self@.value,
    {
        self.value
    }

    /// The attribute section up to this attribute.
    pub fn attrs_up_to(&self) -> (before: &'src [u8])
        ensures
            before@ == self@.attrs_up_to,
            before@.len() + 4 + self@.value.len() + padding_of(self@.value.len() as int)
                <= MAX_SOURCE_LEN,
    {
        proof {
            use_type_invariant(self);
        }
        self.attrs_up_to
    }
}

/// The attribute of `src` that `rec` describes.
fn convert<'src>(src: &'src [u8], rec: RawAttribute) -> (item: Item<'src>)
    requires
        4 <= rec.off,
        rec.end() <= src@.len() <= MAX_SOURCE_LEN,
        rec.pad == padding_of(rec.len as int),
    ensures
        item@ == item_of(src@, rec),
{
    let offset = rec.off as usize;
    let len = rec.len as usize;
    let value = slice_subrange(src, offset, offset + len);
    let attrs_up_to = slice_subrange(src, 0, offset - RawAttribute::TL_LEN);
    Item { attr: rec.attr, value, attrs_up_to }
}

impl<'src, 'attr> MessageParser<'src, 'attr> {
    #[verifier::type_invariant]
    spec fn scanned(self) -> bool {
        &&& self.src@.len() <= MAX_SOURCE_LEN
        &&& scan(self.src@, None) == Ok::<Seq<RawAttribute>, StunError>(self.attrs@)
    }

    /// The attribute section of the message.
    pub closed spec fn source(&self) -> Seq<u8> {
        self.src@
    }

    /// The attributes of the message, in wire order.
    pub closed spec fn records(&self) -> Seq<RawAttribute> {
        self.attrs@
    }

    /// The class in the header of the message.
    pub closed spec fn spec_class(&self) -> Class {
        self.class
    }

    /// The method in the header of the message.
    pub closed spec fn spec_method(&self) -> Method {
        self.method
    }

    /// The transaction id in the header of the message.
    pub closed spec fn spec_transaction_id(&self) -> TransactionId {
        self.transaction_id
    }

    /// Parses a whole message: header, then attributes into `attrs`.
    pub fn from_complete_message<C: Container + ?Sized>(src: &'src [u8], attrs: &'attr mut C) -> (r:
        Result<Self, StunError>)
        ensures
            match r {
                Ok(msg) => {
                    &&& parsed(src@, old(attrs).slots()) matches Ok((header, records))
                    &&& msg.records() == records
                    &&& msg.source() == src@.skip(20)
                    &&& msg.spec_class() == header.class
                    &&& msg.spec_method() == header.method
                    &&& msg.spec_transaction_id() == header.transaction_id
                },
                Err(e) => parsed(src@, old(attrs).slots()) == Err::<
                    (Header, Seq<RawAttribute>),
                    StunError,
                >(e),
            },
    {
        if src.len() < Header::LEN {
            return Err(StunError::HeaderTooBig { len: src.len() });
        }
        let (head, body) = src.split_at(Header::LEN);
        let mut bytes: [u8; 20] = [0; 20];
        let mut i: usize = 0;
        while i < 20
            invariant
                i <= 20,
                head@.len() == 20,
                forall|j: int| 0 <= j < i ==> bytes@[j] == head@[j],
            decreases 20 - i,
        {
            bytes[i] = head[i];
            i += 1;
        }
        assert(bytes@ =~= src@.take(20));
        assert(body@ =~= src@.skip(20));
        let header = match Header::decode(&bytes) {
            Ok(header) => header,
            Err(e) => {
                return Err(e);
            },
        };
        Self::from_header_and_attrs(header, body, attrs)
    }

    /// Checks a header against the attribute section `src` that follows it, and
    /// scans the attributes into `attrs`.
    pub fn from_header_and_attrs<C: Container + ?Sized>(
        header: Header,
        src: &'src [u8],
        attrs: &'attr mut C,
    ) -> (r: Result<Self, StunError>)
        ensures
            match r {
                Ok(msg) => {
                    &&& parsed_attrs(header, src@, old(attrs).slots()) == Ok::<
                        Seq<RawAttribute>,
                        StunError,
                    >(msg.records())
                    &&& msg.source() == src@
                    &&& msg.spec_class() == header.class
                    &&& msg.spec_method() == header.method
                    &&& msg.spec_transaction_id() == header.transaction_id
                },
                Err(e) => parsed_attrs(header, src@, old(attrs).slots()) == Err::<
                    Seq<RawAttribute>,
                    StunError,
                >(e),
            },
    {
        if header.is_rfc3489() {
            return Err(StunError::MagicCookie { cookie: header.magic_cookie });
        }
        if header.length as usize != src.len() {
            let len: u16 = if src.len() > 0xFFFF {
                0xFFFF
            } else {
                src.len() as u16
            };
            return Err(StunError::BufferLenMismatch { header: header.length, actual: len });
        }
        let ghost slots = attrs.slots();
        match attrs.parse(src) {
            Ok(found) => {
                proof {
                    lemma_scan_unbounded(src@, 0, slots);
                }
                Ok(
                    Self {
                        class: header.class,
                        method: header.method,
                        transaction_id: header.transaction_id,
                        src,
                        attrs: found,
                    },
                )
            },
            Err(e) => Err(e),
        }
    }

    /// The attributes as the scan found them.
    pub fn attributes(&self) -> (attrs: &'attr [RawAttribute])
        ensures
            attrs@ == self.records(),
            self.source().len() <= MAX_SOURCE_LEN,
            scan(self.source(), None) == Ok::<Seq<RawAttribute>, StunError>(attrs@),
    {
        proof {
            use_type_invariant(self);
        }
        self.attrs
    }

    /// The attribute section that the attributes lie in.
    pub fn bytes(&self) -> (src: &'src [u8])
        ensures
            src@ == self.source(),
    {
        self.src
    }

    /// The number of attributes.
    pub fn len(&self) -> (n: usize)
        ensures
            n == self.records().len(),
    {
        self.attrs.len()
    }

    /// The attribute at `index`, counted from 0 in wire order, with its type, its
    /// value and what stands before it.
    pub fn get_raw(&self, index: usize) -> (item: Option<Item<'src>>)
        ensures
            match item {
                Some(item) => index < self.records().len() && item@ == item_of(
                    self.source(),
                    self.records()[index as int],
                ),
                None => index >= self.records().len(),
            },
    {
        proof {
            use_type_invariant(self);
            lemma_scan_from_laid_out(self.src@, 0, None);
        }
        if index < self.attrs.len() {
            let rec = self.attrs[index];
            assert(rec == self.attrs@[index as int]);
            Some(convert(self.src, rec))
        } else {
            None
        }
    }

    /// The attributes, each with its type, its value and what stands before it.
    pub fn iter_raw(&self) -> (items: Vec<Item<'src>>)
        ensures
            items@.len() == self.records().len(),
            forall|i: int|
                0 <= i < items@.len() ==> (#[trigger] items@[i])@ == item_of(
                    self.source(),
                    self.records()[i],
                ),
    {
        proof {
            use_type_invariant(self);
            lemma_scan_from_laid_out(self.src@, 0, None);
        }
        let mut items: Vec<Item<'src>> = Vec::new();
        let mut i: usize = 0;
        while i < self.attrs.len()
            invariant
                i <= self.attrs@.len(),
                items@.len() == i,
                self.src@.len() <= MAX_SOURCE_LEN,
                laid_out(self.attrs@, 0, self.src@.len() as int),
                forall|j: int|
                    0 <= j < i ==> (#[trigger] items@[j])@ == item_of(self.src@, self.attrs@[j]),
            decreases self.attrs@.len() - i,
        {
            let rec = self.attrs[i];
            assert(rec == self.attrs@[i as int]);
            items.push(convert(self.src, rec));
            i += 1;
        }
        items
    }

    /// The attributes, each decoded as a `D`. One that fails to decode does not
    /// keep the others from being decoded.
    pub fn iter<D: DecodeAttribute<'src>>(&self) -> (items: Vec<Result<D, StunError>>)
        ensures
            items@.len() == self.records().len(),
            forall|i: int|
                0 <= i < items@.len() ==> D::decoded(
                    self.records()[i].attr,
                    item_of(self.source(), self.records()[i]).value,
                    self.spec_transaction_id(),
                    #[trigger] items@[i],
                ),
    {
        proof {
            use_type_invariant(self);
            lemma_scan_from_laid_out(self.src@, 0, None);
        }
        let mut items: Vec<Result<D, StunError>> = Vec::new();
        let mut i: usize = 0;
        while i < self.attrs.len()
            invariant
                i <= self.attrs@.len(),
                items@.len() == i,
                self.src@.len() <= MAX_SOURCE_LEN,
                laid_out(self.attrs@, 0, self.src@.len() as int),
                forall|j: int|
                    0 <= j < i ==> D::decoded(
                        self.attrs@[j].attr,
                        item_of(self.src@, self.attrs@[j]).value,
                        self.transaction_id,
                        #[trigger] items@[j],
                    ),
            decreases self.attrs@.len() - i,
        {
            let rec = self.attrs[i];
            assert(rec == self.attrs@[i as int]);
            let item = convert(self.src, rec);
            items.push(D::decode(item.attr, item.value, &self.transaction_id));
            i += 1;
        }
        items
    }

    pub fn class(&self) -> (c: Class)
        ensures
            c == self.spec_class(),
    {
        self.class
    }

    pub fn method(&self) -> (m: Method)
        ensures
            m == self.spec_method(),
    {
        self.method
    }

    pub fn transaction_id(&self) -> (t: &TransactionId)
        ensures
            *t == self.spec_transaction_id(),
    {
        &self.transaction_id
    }

    /// The header of this message, with the length of its attribute section as it
    /// is, to check the integrity of the message with.
    pub fn validation_header(&self) -> (h: ValidationHeader)
        ensures
            h@ == (Header {
                class: self.spec_class(),
                method: self.spec_method(),
                length: self.source().len() as u16,
                magic_cookie: MAGIC_COOKIE,
                transaction_id: self.spec_transaction_id(),
            }).wire(),
    {
        proof {
            use_type_invariant(self);
        }
        let header = Header {
            class: self.class,
            method: self.method,
            transaction_id: self.transaction_id,
            magic_cookie: MAGIC_COOKIE,
            length: self.src.len() as u16,
        };
        let mut validation_header = ValidationHeader([0; 20]);
        header.encode(&mut validation_header.0);
        validation_header
    }
}

/// A header to check the integrity of a message with: the header of the message,
/// with a length that may be set to cover the message only up to one attribute.
pub struct ValidationHeader(pub [u8; 20]);

impl View for ValidationHeader {
    type V = Seq<u8>;

    open spec fn view(&self) -> Seq<u8> {
        self.0@
    }
}

/// The length of an attribute section that ends with `item`.
pub open spec fn len_up_to(item: ItemView) -> int {
    item.attrs_up_to.len() + 4 + item.value.len() + padding_of(item.value.len() as int)
}

impl ValidationHeader {
    pub fn as_bytes(&self) -> (b: &[u8; 20])
        ensures
            b@ == self@,
    {
        &self.0
    }

    /// Sets the length to that of the attribute section up to `item` and with it.
    pub fn set_len_from_item(&mut self, item: &Item)
        ensures
            len_up_to(item@) <= MAX_SOURCE_LEN,
            final(self)@ == old(self)@.take(2) + be16_seq(len_up_to(item@) as u16) + old(self)@.skip(
                4,
            ),
    {
        let before = item.attrs_up_to();
        let value = item.value();
        let len = RawAttribute::TL_LEN as u16 + before.len() as u16 + RawAttribute::padded_len(
            value.len() as u16,
        );
        self.set_len(len);
    }

    /// Sets the length.
    pub fn set_len(&mut self, len: u16)
        ensures
            final(self)@ == old(self)@.take(2) + be16_seq(len) + old(self)@.skip(4),
    {
        let bytes = u16_be_bytes(len);
        self.0[2] = bytes[0];
        self.0[3] = bytes[1];
        assert(self@ =~= old(self)@.take(2) + be16_seq(len) + old(self)@.skip(4));
    }
}

} // verus!
