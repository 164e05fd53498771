//! Attributes that carry a socket address, plain or masked with the transaction id.
use crate::attribute::sealed::Sealed;
use crate::attribute::integer::encode_integer;
use crate::attribute::{
    encode_type_length, encoded, space_fault, Attribute, DecodeAttribute, EncodeAttribute, Type,
};
use crate::error::StunError;
use crate::header::TransactionId;
use crate::magic_cookie_bytes;
use crate::wire::{be16, be16_seq, copy_into, u16_be_bytes, u16_from_be};
use crate::MAGIC_COOKIE;
use vstd::prelude::*;

verus! {

/// The two kinds of address.
#[derive(Debug, Copy, Clone, PartialEq, Eq, Hash, Structural)]
pub enum AddressFamily {
    IPv4,
    IPv6,
}

/// An IPv4 or IPv6 address with a port.
#[allow(inconsistent_fields)]
#[derive(Debug, Copy, Clone, PartialEq, Eq, Hash)]
pub enum SocketAddr {
    V4 { ip: [u8; 4], port: u16 },
    V6 { ip: [u8; 16], port: u16 },
}

/// A socket address as plain values.
pub struct Address {
    pub family: AddressFamily,
    pub ip: Seq<u8>,
    pub port: u16,
}

impl View for SocketAddr {
    type V = Address;

    open spec fn view(&self) -> Address {
        match *self {
            SocketAddr::V4 { ip, port } => Address { family: AddressFamily::IPv4, ip: ip@, port },
            SocketAddr::V6 { ip, port } => Address { family: AddressFamily::IPv6, ip: ip@, port },
        }
    }
}

impl SocketAddr {
    pub fn port(&self) -> (p: u16)
        ensures
            p == self@.port,
    {
        match self {
            SocketAddr::V4 { port, .. } => *port,
            SocketAddr::V6 { port, .. } => *port,
        }
    }

    pub fn family(&self) -> (f: AddressFamily)
        ensures
            f == self@.family,
    {
        match self {
            SocketAddr::V4 { .. } => AddressFamily::IPv4,
            SocketAddr::V6 { .. } => AddressFamily::IPv6,
        }
    }
}

/// The bytes before the address itself: a zero, the family and the port.
pub const HEADER_LEN: usize = 4;

pub const FAMILY_IPV4: u8 = 0x01;

pub const IPV4_LEN: usize = 4;

pub const FAMILY_IPV6: u8 = 0x02;

pub const IPV6_LEN: usize = 16;

/// What a port is masked with: the upper half of the magic cookie.
pub const PORT_XOR: u16 = 0x2112;

/// The number of address bytes of a family.
pub open spec fn ip_len(family: AddressFamily) -> nat {
    match family {
        AddressFamily::IPv4 => 4,
        AddressFamily::IPv6 => 16,
    }
}

/// The byte that stands for a family.
pub open spec fn family_byte(family: AddressFamily) -> u8 {
    match family {
        AddressFamily::IPv4 => FAMILY_IPV4,
        AddressFamily::IPv6 => FAMILY_IPV6,
    }
}

/// The family that a byte stands for, or the error that names the byte.
pub open spec fn family_of(f: u8) -> Result<AddressFamily, StunError> {
    if f == FAMILY_IPV4 {
        Ok(AddressFamily::IPv4)
    } else if f == FAMILY_IPV6 {
        Ok(AddressFamily::IPv6)
    } else {
        Err(StunError::InvalidFamily { family: f })
    }
}

/// The 16 bytes that an address is masked with: the magic cookie, then the
/// transaction id.
pub open spec fn mask_key(transaction_id: TransactionId) -> Seq<u8> {
    magic_cookie_bytes() + transaction_id@
}

/// `bytes`, each combined by exclusive or with the byte of `key` at its place.
pub open spec fn xor_bytes(bytes: Seq<u8>, key: Seq<u8>) -> Seq<u8> {
    Seq::new(bytes.len(), |i: int| bytes[i] ^ key[i])
}

/// A port under the mask: combined by exclusive or with the upper 16 bits of the
/// magic cookie, or as it is where there is no key.
pub open spec fn masked_port(port: u16, key: Option<TransactionId>) -> u16 {
    match key {
        Some(_) => port ^ ((MAGIC_COOKIE >> 16) as u16),
        None => port,
    }
}

/// An address of 4 or 16 bytes under the mask: combined by exclusive or with the
/// start of the key, or as it is where there is no key.
pub open spec fn masked_ip(ip: Seq<u8>, key: Option<TransactionId>) -> Seq<u8> {
    match key {
        Some(t) => xor_bytes(ip, mask_key(t)),
        None => ip,
    }
}

/// An address under the mask.
pub open spec fn masked(addr: Address, key: Option<TransactionId>) -> Address {
    Address { family: addr.family, ip: masked_ip(addr.ip, key), port: masked_port(addr.port, key) }
}

/// The value of an address attribute: a zero byte, the family, the port and the
/// address, port and address under the mask.
pub open spec fn addr_value(addr: Address, key: Option<TransactionId>) -> Seq<u8> {
    seq![0u8, family_byte(addr.family)] + be16_seq(masked_port(addr.port, key)) + masked_ip(
        addr.ip,
        key,
    )
}

/// The error that encoding an address of `family` into `avail` bytes gives.
pub open spec fn addr_fault(family: AddressFamily, avail: nat) -> Option<StunError> {
    if avail >= 4 + 4 + ip_len(family) {
        None
    } else if avail < 4 {
        Some(StunError::TypeLenTooBig)
    } else if avail < 8 {
        Some(StunError::AddressHeaderTooBig)
    } else {
        Some(
            StunError::IpLenMismatch {
                is_v6: family == AddressFamily::IPv6,
                actual: (avail - 8) as u16,
            },
        )
    }
}

/// What decoding the value `src` gives: the address, taken from under the mask, or
/// the first fault in the bytes.
pub open spec fn decoded_addr(src: Seq<u8>, key: Option<TransactionId>) -> Result<
    Address,
    StunError,
> {
    if src.len() < 4 {
        Err(StunError::AddressHeaderTooBig)
    } else {
        let port = masked_port(be16(src[2], src[3]), key);
        let ip = src.skip(4);
        match family_of(src[1]) {
            Err(e) => Err(e),
            Ok(family) => if ip.len() != ip_len(family) {
                Err(
                    StunError::IpLenMismatch {
                        is_v6: family == AddressFamily::IPv6,
                        actual: (ip.len() % 0x1_0000) as u16,
                    },
                )
            } else {
                Ok(Address { family, ip: masked_ip(ip, key), port })
            },
        }
    }
}

/// A key to mask addresses with, or the lack of one.
pub trait OptXor: Sealed + Sized {
    /// The transaction id to mask with, if any.
    spec fn key(&self) -> Option<TransactionId>;

    fn port(&self, port: &mut u16)
        ensures
            *final(port) == masked_port(*old(port), self.key()),
    ;

    fn ipv4(&self, ip: &mut [u8; 4])
        ensures
            final(ip)@ == masked_ip(old(ip)@, self.key()),
    ;

    fn ipv6(&self, ip: &mut [u8; 16])
        ensures
            final(ip)@ == masked_ip(old(ip)@, self.key()),
    ;
}

impl OptXor for () {
    open spec fn key(&self) -> Option<TransactionId> {
        None
    }

    fn port(&self, port: &mut u16) {
    }

    fn ipv4(&self, ip: &mut [u8; 4]) {
    }

    fn ipv6(&self, ip: &mut [u8; 16]) {
    }
}

impl<'a> OptXor for &'a TransactionId {
    open spec fn key(&self) -> Option<TransactionId> {
        Some(**self)
    }

    fn port(&self, port: &mut u16) {
        assert((MAGIC_COOKIE >> 16) as u16 == PORT_XOR) by (bit_vector);
        *port = *port ^ PORT_XOR;
    }

    fn ipv4(&self, ip: &mut [u8; 4]) {
        let cookie: [u8; 4] = [0x21, 0x12, 0xA4, 0x42];
        let mut i: usize = 0;
        while i < 4
            invariant
                i <= 4,
                cookie@ == magic_cookie_bytes(),
                forall|j: int| 0 <= j < i ==> ip@[j] == old(ip)@[j] ^ mask_key(**self)[j],
                forall|j: int| i <= j < 4 ==> ip@[j] == old(ip)@[j],
            decreases 4 - i,
        {
            ip[i] = ip[i] ^ cookie[i];
            i += 1;
        }
        assert(ip@ =~= xor_bytes(old(ip)@, mask_key(**self)));
    }

    fn ipv6(&self, ip: &mut [u8; 16]) {
        let cookie: [u8; 4] = [0x21, 0x12, 0xA4, 0x42];
        let mut i: usize = 0;
        while i < 4
            invariant
                i <= 4,
                cookie@ == magic_cookie_bytes(),
                forall|j: int| 0 <= j < i ==> ip@[j] == old(ip)@[j] ^ mask_key(**self)[j],
                forall|j: int| i <= j < 16 ==> ip@[j] == old(ip)@[j],
            decreases 4 - i,
        {
            ip[i] = ip[i] ^ cookie[i];
            i += 1;
        }
        while i < 16
            invariant
                4 <= i <= 16,
                forall|j: int| 0 <= j < i ==> ip@[j] == old(ip)@[j] ^ mask_key(**self)[j],
                forall|j: int| i <= j < 16 ==> ip@[j] == old(ip)@[j],
            decreases 16 - i,
        {
            ip[i] = ip[i] ^ self.0[i - 4];
            i += 1;
        }
        assert(ip@ =~= xor_bytes(old(ip)@, mask_key(**self)));
    }
}

impl<'a> OptXor for Option<&'a TransactionId> {
    open spec fn key(&self) -> Option<TransactionId> {
        match *self {
            Some(t) => Some(*t),
            None => None,
        }
    }

    fn port(&self, port: &mut u16) {
        if let Some(t) = self {
            t.port(port)
        }
    }

    fn ipv4(&self, ip: &mut [u8; 4]) {
        if let Some(t) = self {
            t.ipv4(ip)
        }
    }

    fn ipv6(&self, ip: &mut [u8; 16]) {
        if let Some(t) = self {
            t.ipv6(ip)
        }
    }
}

/// The error for an address that does not fit `len` bytes.
fn space_error(is_v6: bool, len: usize) -> (e: StunError)
    requires
        len < 4 + 4 + (if is_v6 { 16int } else { 4int }),
    ensures
        Some(e) == addr_fault(
            if is_v6 {
                AddressFamily::IPv6
            } else {
                AddressFamily::IPv4
            },
            len as nat,
        ),
{
    if len < 4 {
        StunError::TypeLenTooBig
    } else if len < 8 {
        StunError::AddressHeaderTooBig
    } else {
        StunError::IpLenMismatch { is_v6, actual: (len - 8) as u16 }
    }
}

/// Writes an address attribute of type `t` at the start of `dst` and returns what
/// is left of `dst` after it.
pub fn encode<'a, X: OptXor>(t: Type, addr: &SocketAddr, dst: &'a mut [u8], xor: X) -> (r: Result<
    &'a mut [u8],
    StunError,
>)
    ensures
        match r {
            Ok(rest) => encoded(
                t,
                addr_value(addr@, xor.key()),
                addr_fault(addr@.family, old(dst)@.len()),
                old(dst)@,
                final(dst)@,
                Ok((rest@, final(rest)@)),
            ),
            Err(e) => encoded(
                t,
                addr_value(addr@, xor.key()),
                addr_fault(addr@.family, old(dst)@.len()),
                old(dst)@,
                final(dst)@,
                Err(e),
            ),
        },
{
    match addr {
        SocketAddr::V4 { ip, port } => {
            if dst.len() < 12 {
                return Err(space_error(false, dst.len()));
            }
            let (tlv, rest) = dst.split_at_mut(12);
            let v = encode_type_length(t, 8, tlv);
            let (header, address) = v.split_at_mut(HEADER_LEN);
            encode_header(FAMILY_IPV4, *port, header, &xor);
            let mut bytes: [u8; 4] = *ip;
            xor.ipv4(&mut bytes);
            copy_into(address, &bytes);
            proof {
                lemma_tlv_of_addr(t, addr@, xor.key());
            }
            Ok(rest)
        },
        SocketAddr::V6 { ip, port } => {
            if dst.len() < 24 {
                return Err(space_error(true, dst.len()));
            }
            let (tlv, rest) = dst.split_at_mut(24);
            let v = encode_type_length(t, 20, tlv);
            let (header, address) = v.split_at_mut(HEADER_LEN);
            encode_header(FAMILY_IPV6, *port, header, &xor);
            let mut bytes: [u8; 16] = *ip;
            xor.ipv6(&mut bytes);
            copy_into(address, &bytes);
            proof {
                lemma_tlv_of_addr(t, addr@, xor.key());
            }
            Ok(rest)
        },
    }
}

/// An address attribute on the wire is type and length, then the value, with no
/// padding: the value is 8 or 20 bytes long.
pub proof fn lemma_tlv_of_addr(t: Type, addr: Address, key: Option<TransactionId>)
    requires
        addr.ip.len() == ip_len(addr.family),
    ensures
        addr_value(addr, key).len() == 4 + ip_len(addr.family),
        crate::attribute::tlv(t, addr_value(addr, key)) == crate::parse::attribute::tl_seq(
            t,
            (4 + ip_len(addr.family)) as u16,
        ) + addr_value(addr, key),
{
    let value = addr_value(addr, key);
    assert(masked_ip(addr.ip, key).len() == addr.ip.len());
    assert(value.len() == 4 + ip_len(addr.family));
    assert(crate::wire::zeros(0) =~= Seq::<u8>::empty());
    assert(crate::attribute::tlv(t, value) =~= crate::parse::attribute::tl_seq(
        t,
        (4 + ip_len(addr.family)) as u16,
    ) + value);
}

/// Writes what stands before the address: a zero, the family, and the port under
/// the mask.
fn encode_header<X: OptXor>(family: u8, port: u16, dst: &mut [u8], xor: &X)
    requires
        old(dst)@.len() == 4,
    ensures
        final(dst)@ == seq![0u8, family] + be16_seq(masked_port(port, xor.key())),
{
    let mut port = port;
    xor.port(&mut port);
    let p = u16_be_bytes(port);
    dst[0] = 0;
    dst[1] = family;
    dst[2] = p[0];
    dst[3] = p[1];
    assert(dst@ =~= seq![0u8, family] + be16_seq(port));
}

/// Reads an address from the value of an address attribute.
pub fn decode<X: OptXor>(src: &[u8], xor: X) -> (r: Result<SocketAddr, StunError>)
    ensures
        match r {
            Ok(addr) => decoded_addr(src@, xor.key()) == Ok::<Address, StunError>(addr@),
            Err(e) => decoded_addr(src@, xor.key()) == Err::<Address, StunError>(e),
        },
{
    if src.len() < HEADER_LEN {
        return Err(StunError::AddressHeaderTooBig);
    }
    let family = src[1];
    let mut port = u16_from_be(src[2], src[3]);
    xor.port(&mut port);
    let (_, ip) = src.split_at(HEADER_LEN);
    assert(ip@ == src@.skip(4));
    match into_family(family) {
        Err(e) => Err(e),
        Ok(AddressFamily::IPv4) => {
            if ip.len() != IPV4_LEN {
                return Err(
                    StunError::IpLenMismatch { is_v6: false, actual: (ip.len() % 0x1_0000) as u16 },
                );
            }
            let mut bytes: [u8; 4] = [ip[0], ip[1], ip[2], ip[3]];
            assert(bytes@ =~= ip@);
            xor.ipv4(&mut bytes);
            Ok(SocketAddr::V4 { ip: bytes, port })
        },
        Ok(AddressFamily::IPv6) => {
            if ip.len() != IPV6_LEN {
                return Err(
                    StunError::IpLenMismatch { is_v6: true, actual: (ip.len() % 0x1_0000) as u16 },
                );
            }
            let mut bytes: [u8; 16] = [
                ip[0], ip[1], ip[2], ip[3], ip[4], ip[5], ip[6], ip[7],
                ip[8], ip[9], ip[10], ip[11], ip[12], ip[13], ip[14], ip[15],
            ];
            assert(bytes@ =~= ip@);
            xor.ipv6(&mut bytes);
            Ok(SocketAddr::V6 { ip: bytes, port })
        },
    }
}

/// The length of the value of an address attribute: 8 bytes for IPv4, 20 for IPv6.
pub fn encoded_value_len(addr: &SocketAddr) -> (len: u16)
    ensures
        len == 4 + ip_len(addr@.family),
{
    match addr {
        SocketAddr::V4 { .. } => (HEADER_LEN + IPV4_LEN) as u16,
        SocketAddr::V6 { .. } => (HEADER_LEN + IPV6_LEN) as u16,
    }
}

/// The byte that stands for a family.
pub fn from_family(family: AddressFamily) -> (f: u8)
    ensures
        f == family_byte(family),
{
    match family {
        AddressFamily::IPv4 => FAMILY_IPV4,
        AddressFamily::IPv6 => FAMILY_IPV6,
    }
}

/// The family that a byte stands for.
pub fn into_family(f: u8) -> (r: Result<AddressFamily, StunError>)
    ensures
        r == family_of(f),
{
    if f == FAMILY_IPV4 {
        Ok(AddressFamily::IPv4)
    } else if f == FAMILY_IPV6 {
        Ok(AddressFamily::IPv6)
    } else {
        Err(StunError::InvalidFamily { family: f })
    }
}

/// An attribute of type `CODE` that carries a socket address, under the mask of the
/// transaction id where `XOR` is set.
#[derive(Debug, Clone, Copy, PartialEq, Eq, Hash)]
pub struct AddrAttribute<const CODE: u16, const XOR: bool>(pub SocketAddr);

pub type MappedAddress = AddrAttribute<0x0001, false>;

pub type AlternateServer = AddrAttribute<0x8023, false>;

pub type XorMappedAddress = AddrAttribute<0x0020, true>;

pub type XorPeerAddress = AddrAttribute<0x0012, true>;

pub type XorRelayedAddress = AddrAttribute<0x0016, true>;

/// The key that an attribute masks its address with.
pub open spec fn key_of(xor: bool, transaction_id: TransactionId) -> Option<TransactionId> {
    if xor {
        Some(transaction_id)
    } else {
        None
    }
}

impl<const CODE: u16, const XOR: bool> AddrAttribute<CODE, XOR> {
    pub fn new(addr: SocketAddr) -> (a: Self)
        ensures
            a.0 == addr,
    {
        Self(addr)
    }

    pub fn addr(&self) -> (addr: &SocketAddr)
        ensures
            *addr == self.0,
    {
        &self.0
    }

    /// The type of these attributes.
    pub fn attr_type() -> (t: Type)
        ensures
            t == Type(CODE),
    {
        Type(CODE)
    }
}

impl<const CODE: u16, const XOR: bool> Attribute for AddrAttribute<CODE, XOR> {
    open spec fn spec_type(&self) -> Type {
        Type(CODE)
    }

    fn attribute_type(&self) -> (t: Type) {
        Type(CODE)
    }
}

impl<const CODE: u16, const XOR: bool> EncodeAttribute for AddrAttribute<CODE, XOR> {
    open spec fn wire_value(&self, transaction_id: TransactionId) -> Seq<u8> {
        addr_value(self.0@, key_of(XOR, transaction_id))
    }

    open spec fn fault(&self, avail: nat) -> Option<StunError> {
        addr_fault(self.0@.family, avail)
    }

    fn encoded_value_len(&self) -> (len: u16) {
        proof {
            assert forall|t: TransactionId| 4 + ip_len(self.0@.family) == (#[trigger] self.wire_value(
                t,
            )).len() by {
                lemma_tlv_of_addr(Type(CODE), self.0@, key_of(XOR, t));
            }
        }
        encoded_value_len(&self.0)
    }

    fn encode<'a>(&self, dst: &'a mut [u8], transaction_id: &TransactionId) -> (r: Result<
        &'a mut [u8],
        StunError,
    >) {
        if XOR {
            encode(Type(CODE), &self.0, dst, transaction_id)
        } else {
            encode(Type(CODE), &self.0, dst, ())
        }
    }
}

impl<'d, const CODE: u16, const XOR: bool> DecodeAttribute<'d> for AddrAttribute<CODE, XOR> {
    open spec fn decoded(attr: Type, src: Seq<u8>, transaction_id: TransactionId, r: Result<
        Self,
        StunError,
    >) -> bool {
        match r {
            Ok(a) => decoded_addr(src, key_of(XOR, transaction_id)) == Ok::<Address, StunError>(
                a.0@,
            ),
            Err(e) => decoded_addr(src, key_of(XOR, transaction_id)) == Err::<Address, StunError>(
                e,
            ),
        }
    }

    fn decode(attr: Type, src: &'d [u8], transaction_id: &TransactionId) -> (r: Result<
        Self,
        StunError,
    >) {
        let addr = if XOR {
            decode(src, transaction_id)
        } else {
            decode(src, ())
        };
        match addr {
            Ok(addr) => Ok(Self(addr)),
            Err(e) => Err(e),
        }
    }
}

/// The value of an address family attribute: the byte of the family and three
/// zeros.
pub open spec fn family_value(family: AddressFamily) -> Seq<u8> {
    seq![family_byte(family), 0u8, 0u8, 0u8]
}

/// What decoding the value of an address family attribute gives.
pub open spec fn decoded_family(src: Seq<u8>) -> Result<AddressFamily, StunError> {
    if src.len() != 4 {
        Err(StunError::FamilyLenMismatch { actual: src.len() as usize })
    } else {
        family_of(src[0])
    }
}

/// Reads an address family from the value of an address family attribute.
pub fn decode_family(src: &[u8]) -> (r: Result<AddressFamily, StunError>)
    ensures
        r == decoded_family(src@),
{
    if src.len() != 4 {
        return Err(StunError::FamilyLenMismatch { actual: src.len() });
    }
    into_family(src[0])
}

/// Writes an address family attribute of type `t`.
pub fn encode_family<'a>(t: Type, family: AddressFamily, dst: &'a mut [u8]) -> (r: Result<
    &'a mut [u8],
    StunError,
>)
    ensures
        match r {
            Ok(rest) => encoded(
                t,
                family_value(family),
                space_fault(8, 4, old(dst)@.len() as int),
                old(dst)@,
                final(dst)@,
                Ok((rest@, final(rest)@)),
            ),
            Err(e) => encoded(
                t,
                family_value(family),
                space_fault(8, 4, old(dst)@.len() as int),
                old(dst)@,
                final(dst)@,
                Err(e),
            ),
        },
{
    let bytes: [u8; 4] = [from_family(family), 0, 0, 0];
    assert(bytes@ =~= family_value(family));
    encode_integer::<4>(t, dst, &bytes)
}

/// An attribute of type `CODE` that names an address family.
#[derive(Debug, Clone, Copy, PartialEq, Eq, Hash)]
pub struct FamilyAttribute<const CODE: u16>(pub AddressFamily);

pub type AdditionalAddressFamily = FamilyAttribute<0x8000>;

pub type RequestedAddressFamily = FamilyAttribute<0x0017>;

impl<const CODE: u16> FamilyAttribute<CODE> {
    pub fn new(family: AddressFamily) -> (a: Self)
        ensures
            a.0 == family,
    {
        Self(family)
    }

    pub fn family(&self) -> (f: AddressFamily)
        ensures
            f == self.0,
    {
        self.0
    }

    /// The type of these attributes.
    pub fn attr_type() -> (t: Type)
        ensures
            t == Type(CODE),
    {
        Type(CODE)
    }
}

impl<const CODE: u16> Attribute for FamilyAttribute<CODE> {
    open spec fn spec_type(&self) -> Type {
        Type(CODE)
    }

    fn attribute_type(&self) -> (t: Type) {
        Type(CODE)
    }
}

impl<const CODE: u16> EncodeAttribute for FamilyAttribute<CODE> {
    open spec fn wire_value(&self, transaction_id: TransactionId) -> Seq<u8> {
        family_value(self.0)
    }

    open spec fn fault(&self, avail: nat) -> Option<StunError> {
        space_fault(8, 4, avail as int)
    }

    fn encoded_value_len(&self) -> (len: u16) {
        4
    }

    fn encode<'a>(&self, dst: &'a mut [u8], transaction_id: &TransactionId) -> (r: Result<
        &'a mut [u8],
        StunError,
    >) {
        encode_family(Type(CODE), self.0, dst)
    }
}

impl<'d, const CODE: u16> DecodeAttribute<'d> for FamilyAttribute<CODE> {
    open spec fn decoded(attr: Type, src: Seq<u8>, transaction_id: TransactionId, r: Result<
        Self,
        StunError,
    >) -> bool {
        match r {
            Ok(a) => decoded_family(src) == Ok::<AddressFamily, StunError>(a.0),
            Err(e) => decoded_family(src) == Err::<AddressFamily, StunError>(e),
        }
    }

    fn decode(attr: Type, src: &'d [u8], transaction_id: &TransactionId) -> (r: Result<
        Self,
        StunError,
    >) {
        match decode_family(src) {
            Ok(family) => Ok(Self(family)),
            Err(e) => Err(e),
        }
    }
}

/// The mask is its own inverse: a port masked twice with the same key is the port.
pub proof fn lemma_port_mask_involution(port: u16, key: Option<TransactionId>)
    ensures
        masked_port(masked_port(port, key), key) == port,
{
    let m = (MAGIC_COOKIE >> 16) as u16;
    assert((port ^ m) ^ m == port) by (bit_vector);
}

/// The mask is its own inverse: address bytes masked twice with the same key are
/// the bytes.
pub proof fn lemma_ip_mask_involution(ip: Seq<u8>, key: Option<TransactionId>)
    ensures
        masked_ip(masked_ip(ip, key), key) == ip,
{
    if let Some(t) = key {
        let k = mask_key(t);
        let once = xor_bytes(ip, k);
        assert forall|i: int| 0 <= i < ip.len() implies (#[trigger] once[i]) ^ k[i] == ip[i] by {
            let a = ip[i];
            let b = k[i];
            assert((a ^ b) ^ b == a) by (bit_vector);
        }
        assert(xor_bytes(once, k) =~= ip);
    }
}

/// Masking an address twice with the same transaction id gives the address.
pub proof fn lemma_mask_involution(addr: Address, key: Option<TransactionId>)
    ensures
        masked(masked(addr, key), key) == addr,
{
    lemma_port_mask_involution(addr.port, key);
    lemma_ip_mask_involution(addr.ip, key);
}

/// Decoding the value that an address encodes to, with the same key, gives the
/// address.
pub proof fn lemma_decode_encoded_addr(addr: Address, key: Option<TransactionId>)
    requires
        addr.ip.len() == ip_len(addr.family),
    ensures
        decoded_addr(addr_value(addr, key), key) == Ok::<Address, StunError>(addr),
{
    let value = addr_value(addr, key);
    let port = masked_port(addr.port, key);
    lemma_port_mask_involution(addr.port, key);
    lemma_ip_mask_involution(addr.ip, key);
    assert(masked_ip(addr.ip, key).len() == addr.ip.len());
    assert(value.skip(4) =~= masked_ip(addr.ip, key));
    assert(be16(value[2], value[3]) == port);
}

} // verus!
