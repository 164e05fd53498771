use stun_message::attribute::addr::{
    decode, decode_family, encode, encode_family, encoded_value_len, from_family, into_family,
    AdditionalAddressFamily, AddressFamily, AlternateServer, MappedAddress, OptXor,
    RequestedAddressFamily, SocketAddr, XorMappedAddress, XorPeerAddress, XorRelayedAddress,
};
use stun_message::attribute::change_request::ChangeRequest;
use stun_message::attribute::data::Data;
use stun_message::attribute::empty::{decode_empty, encode_empty, DontFragment, UseCandidate};
use stun_message::attribute::error_code::{
    decode_error_code, encode_error_code, reason_for, AddressErrorCode, ErrorCode,
};
use stun_message::attribute::fixed::{
    decode_fixed, encode_fixed, MessageIntegrity, MessageIntegritySha256, UserHash,
};
use stun_message::attribute::integer::{
    decode_integer, encode_integer, Fingerprint, IceControlled, IceControlling, Lifetime, Priority,
    RequestedTransport,
};
use stun_message::attribute::password::{
    next_alg, value_len, Algorithm, PasswordAlgorithm, PasswordAlgorithms,
};
use stun_message::attribute::unknown::{
    convert, encode_unknown_attributes, len_from_count, UnknownAttributes,
};
use stun_message::attribute::{
    encode_type_length, encode_variable_len, ensure_space, shrink_to_u16, total_len, AsBytes,
    Attribute, DecodeAttribute, EncodeAttribute, Type, UnknownAttribute, Validated, MAX_VALUE_LEN,
};
use stun_message::error::{ErrorKind, StunErrorKind};
use stun_message::header::{Class, Header, Method, TransactionId};
use stun_message::parse::{Container, MessageParser, RawAttribute};
use stun_message::wire::{
    copy_into, fill_zero, u16_be_bytes, u16_from_be, u32_be_bytes, u32_from_be, u64_be_bytes,
    u64_from_be,
};
use stun_message::{StunError, MAGIC_COOKIE};

fn id() -> TransactionId {
    TransactionId::new([0xb7, 0xe7, 0xa7, 0x01, 0xbc, 0x34, 0xd6, 0x86, 0xfa, 0x87, 0xdf, 0xae])
}

/// `count` attributes of type 0x8022, the first with one byte of value, the next with
/// two, and so on, each padded.
fn section(count: usize) -> Vec<u8> {
    let mut section = Vec::new();
    for i in 0..count {
        let len = i % 7 + 1;
        section.extend_from_slice(&[0x80, 0x22, 0x00, len as u8]);
        section.extend(std::iter::repeat(b'x').take(len));
        section.extend(std::iter::repeat(0).take((4 - len % 4) % 4));
    }
    section
}

#[test]
fn test_error() {
    assert_eq!(core::mem::size_of::<StunError>(), 16);
}

#[test]
fn error_kinds() {
    assert_eq!(StunError::InvalidLen { len: 3 }.error_kind(), StunErrorKind::InvalidParameter);
    assert_eq!(StunError::StringNotOpaque.error_kind(), StunErrorKind::InvalidParameter);
    assert_eq!(StunError::TypeLenTooBig.error_kind(), StunErrorKind::BufferTooSmall);
    assert_eq!(
        StunError::FixedLenMismatch { expected: 20, actual: 2 }.error_kind(),
        StunErrorKind::BufferTooSmall
    );
    assert_eq!(StunError::ValueTooLong { len: 70000 }.error_kind(), StunErrorKind::ValueTooLong);
    assert_eq!(StunError::StringTooLongConst.error_kind(), StunErrorKind::ValueTooLong);
    assert_eq!(StunError::TooManyAttributes.error_kind(), StunErrorKind::TooManyAttributes);
    assert_eq!(StunError::MagicCookie { cookie: 1 }.error_kind(), StunErrorKind::MagicCookie);
    assert_eq!(StunErrorKind::InvalidParameter.description_str(), "invalid parameter");
    assert_eq!(StunErrorKind::ValidationFailed.description_str(), "validation failed");
    assert_eq!(StunErrorKind::ValueTooLong.description_str(), "value is too long");
    assert_eq!(
        StunErrorKind::BufferTooSmall.description_str(),
        "buffer is too small for the message"
    );
    assert_eq!(
        StunErrorKind::TooManyAttributes.description_str(),
        "attribute buffer is too small for the message"
    );
    assert_eq!(StunErrorKind::MagicCookie.description_str(), "magic cookie doesn't match");
}

#[test]
fn big_endian_integers() {
    assert_eq!(u16_from_be(0x12, 0x34), 0x1234);
    assert_eq!(u16_be_bytes(0x1234), [0x12, 0x34]);
    assert_eq!(u32_from_be(0x21, 0x12, 0xa4, 0x42), MAGIC_COOKIE);
    assert_eq!(u32_be_bytes(MAGIC_COOKIE), [0x21, 0x12, 0xa4, 0x42]);
    assert_eq!(u64_from_be(&[1, 2, 3, 4, 5, 6, 7, 8]), 0x0102_0304_0506_0708);
    assert_eq!(u64_be_bytes(0x0102_0304_0506_0708), [1, 2, 3, 4, 5, 6, 7, 8]);
    for x in [0u16, 1, 255, 256, 0x8000, 0xffff] {
        let b = u16_be_bytes(x);
        assert_eq!(b, x.to_be_bytes());
        assert_eq!(u16_from_be(b[0], b[1]), x);
    }
    for x in [0u32, 1, 0xff00, 0x1_0000, 0xdead_beef, u32::MAX] {
        let b = u32_be_bytes(x);
        assert_eq!(b, x.to_be_bytes());
        assert_eq!(u32_from_be(b[0], b[1], b[2], b[3]), x);
    }
    for x in [0u64, 1, 0xdead_beef_0bad_f00d, u64::MAX] {
        assert_eq!(u64_be_bytes(x), x.to_be_bytes());
        assert_eq!(u64_from_be(&x.to_be_bytes()), x);
    }
    let mut dst = [9u8; 3];
    copy_into(&mut dst, &[1, 2, 3]);
    assert_eq!(dst, [1, 2, 3]);
    fill_zero(&mut dst);
    assert_eq!(dst, [0, 0, 0]);
}

#[test]
fn class_and_method_share_the_message_type() {
    assert_eq!(Class::from_msg_type(0x0001), Class::Request);
    assert_eq!(Class::from_msg_type(0x0011), Class::Indication);
    assert_eq!(Class::from_msg_type(0x0101), Class::SuccessResponse);
    assert_eq!(Class::from_msg_type(0x0111), Class::ErrorResponse);
    assert_eq!(Class::ErrorResponse.into_msg_type(), 0x0110);
    assert_eq!(Class::SuccessResponse.into_msg_type(), 0x0100);
    assert_eq!(Class::Indication.into_msg_type(), 0x0010);
    assert_eq!(Class::Request.into_msg_type(), 0x0000);
    assert!(Class::Request.is_request());
    assert!(Class::Indication.is_indication());
    assert!(Class::SuccessResponse.is_response() && Class::SuccessResponse.is_success());
    assert!(Class::ErrorResponse.is_response() && Class::ErrorResponse.is_error());
    assert!(!Class::Request.is_response() && !Class::ErrorResponse.is_success());
    assert_eq!(Method::from_msg_type(0x0101), Method(Method::BINDING));
    assert_eq!(Method::from_msg_type(0x3fff), Method(0xfff));
    assert_eq!(Method(0xfff).into_msg_type(), 0x3eef);
    assert_eq!(Method(0x080).into_msg_type(), 0x0200);
    assert_eq!(Method::from_msg_type(0x0200), Method(Method::GOOG_PING));
    let h = Header::new(Class::ErrorResponse, Method(Method::ALLOCATE), 8, id());
    assert_eq!(h.msg_type(), 0x0113);
    assert_eq!(h.class(), Class::ErrorResponse);
    assert_eq!(h.method(), Method(3));
    assert_eq!(h.length(), 8);
    assert_eq!(h.magic_cookie(), MAGIC_COOKIE);
    assert_eq!(h.transaction_id(), id());
    assert!(!h.is_rfc3489());
}

#[test]
fn header_round_trip_over_all_message_types() {
    let mut bytes = [0u8; 20];
    bytes[4..8].copy_from_slice(&[1, 2, 3, 4]);
    bytes[8..].copy_from_slice(id().get());
    let mut out = [0u8; 20];
    for msg_type in 0..=0x3fffu16 {
        bytes[..2].copy_from_slice(&msg_type.to_be_bytes());
        bytes[2..4].copy_from_slice(&((msg_type % 0x3fff) * 4).to_be_bytes());
        let h = Header::decode(&bytes).unwrap();
        h.encode(&mut out);
        assert_eq!(out, bytes);
    }
}

#[test]
fn padding_law() {
    for len in 0..=u16::MAX {
        let pad = RawAttribute::padding(len);
        assert_eq!(pad, (4 - len % 4) % 4);
        assert_eq!((len as u32 + pad as u32) % 4, 0);
        assert!(pad < 4);
        assert_eq!(total_len(len), 4 + len as usize + pad as usize);
        if len <= 0xfffc {
            assert_eq!(RawAttribute::padded_len(len), len + pad);
        }
    }
    assert_eq!(RawAttribute::padding(9), 3);
    assert_eq!(RawAttribute::padded_len(9), 12);
    assert_eq!(total_len(9), 16);
    assert_eq!(total_len(0), 4);
    assert_eq!(total_len(65535), 65540);
    assert_eq!(MAX_VALUE_LEN, 65528);
}

#[test]
fn type_and_length() {
    let mut tl = [0u8; 4];
    RawAttribute::encode_type_length(Type::new(Type::SOFTWARE), 0x0b, &mut tl);
    assert_eq!(tl, [0x80, 0x22, 0x00, 0x0b]);
    assert_eq!(RawAttribute::decode_type_length(&tl), (Type::new(0x8022), 11));
    let mut buf = [0xffu8; 6];
    let rest = encode_type_length(Type::new(0x0102), 0x0304, &mut buf);
    assert_eq!(rest, [0xff, 0xff]);
    assert_eq!(buf, [1, 2, 3, 4, 0xff, 0xff]);
    assert!(Type::new(0x7fff).is_comprehension_required());
    assert!(!Type::new(0x8000).is_comprehension_required());
    assert_eq!(Type::new(Type::FINGERPRINT).codepoint(), 0x8028);
}

#[test]
fn space_is_checked_in_two_steps() {
    assert_eq!(ensure_space(16, 11, 16), Ok(()));
    assert_eq!(ensure_space(16, 11, 20), Ok(()));
    assert_eq!(
        ensure_space(16, 11, 15),
        Err(StunError::BufferTooSmallForValue { rem: 15, len: 11 })
    );
    assert_eq!(ensure_space(16, 11, 4), Err(StunError::BufferTooSmallForValue { rem: 4, len: 11 }));
    assert_eq!(ensure_space(16, 11, 3), Err(StunError::TypeLenTooBig));
    assert_eq!(ensure_space(16, 11, 0), Err(StunError::TypeLenTooBig));
    assert_eq!(
        ensure_space(65540, 65535, 65537),
        Err(StunError::BufferTooSmallForValue { rem: 1, len: 65535 })
    );
}

#[test]
fn variable_length_values() {
    let mut buf = [0xffu8; 12];
    let rest = encode_variable_len(Type::new(Type::DATA), b"hello", &mut buf).unwrap();
    assert_eq!(rest.len(), 0);
    assert_eq!(buf, [0x00, 0x13, 0x00, 0x05, b'h', b'e', b'l', b'l', b'o', 0, 0, 0]);
    let mut buf = [0xffu8; 11];
    assert_eq!(
        encode_variable_len(Type::new(Type::DATA), b"hello", &mut buf).err(),
        Some(StunError::BufferTooSmallForValue { rem: 11, len: 5 })
    );
    assert_eq!(buf, [0xff; 11]);
    assert_eq!(
        encode_variable_len(Type::new(Type::DATA), b"hello", &mut buf[..2]).err(),
        Some(StunError::TypeLenTooBig)
    );
    // only what 16 bits can declare is written
    let long = vec![7u8; 0x1_0000 + 2];
    assert_eq!(shrink_to_u16(&long), &[7, 7]);
    assert_eq!(shrink_to_u16(&long[..0xffff]).len(), 0xffff);
    let mut buf = [0xffu8; 8];
    let rest = encode_variable_len(Type::new(Type::DATA), &long, &mut buf).unwrap();
    assert!(rest.is_empty());
    assert_eq!(buf, [0x00, 0x13, 0x00, 0x02, 7, 7, 0, 0]);
}

#[test]
fn attributes_follow_one_another_in_a_buffer() {
    let mut buf = [0xffu8; 32];
    let rest = Priority::new(0x6e0001ff).encode(&mut buf, &id()).unwrap();
    let rest = UseCandidate::new().encode(rest, &id()).unwrap();
    let rest = Data::new(&b"abcde"[..]).encode(rest, &id()).unwrap();
    assert_eq!(rest.len(), 8);
    assert_eq!(
        &buf[..24],
        &[
            0x00, 0x24, 0x00, 0x04, 0x6e, 0x00, 0x01, 0xff, 0x00, 0x25, 0x00, 0x00, 0x00, 0x13,
            0x00, 0x05, b'a', b'b', b'c', b'd', b'e', 0, 0, 0
        ]
    );
    let mut slots = [RawAttribute::default(); 4];
    let found = slots.parse(&buf[..24]).unwrap();
    assert_eq!(
        found,
        [
            RawAttribute { attr: Type::new(Type::PRIORITY), len: 4, off: 4, pad: 0 },
            RawAttribute { attr: Type::new(Type::USE_CANDIDATE), len: 0, off: 12, pad: 0 },
            RawAttribute { attr: Type::new(Type::DATA), len: 5, off: 16, pad: 3 },
        ]
    );
}

#[test]
fn scan_reports_an_attribute_that_does_not_fit() {
    let mut slots = [RawAttribute::default(); 4];
    // 9 bytes declared, 8 there
    let src = [0x00, 0x06, 0x00, 0x09, 1, 2, 3, 4, 5, 6, 7, 8];
    assert_eq!(
        slots.parse(&src).err(),
        Some(StunError::AttributeTooBig { attr: Type::new(6), off: 4, rem: 8, len: 9 })
    );
    // the value fits, its padding does not
    let src = [0x00, 0x24, 0x00, 0x04, 1, 2, 3, 4, 0x00, 0x06, 0x00, 0x05, 1, 2, 3, 4, 5, 0, 0];
    assert_eq!(
        slots.parse(&src).err(),
        Some(StunError::AttributeTooBig { attr: Type::new(6), off: 12, rem: 7, len: 5 })
    );
    let mut vec: Vec<RawAttribute> = Vec::new();
    assert_eq!(
        vec.parse(&src).err(),
        Some(StunError::AttributeTooBig { attr: Type::new(6), off: 12, rem: 7, len: 5 })
    );
    // fewer than 4 bytes at the end are left alone
    let src = [0x00, 0x24, 0x00, 0x04, 1, 2, 3, 4, 9, 9];
    assert_eq!(slots.parse(&src).unwrap().len(), 1);
    assert_eq!(slots.parse(&[]).unwrap().len(), 0);
}

#[test]
fn bounded_containers_fail_where_growing_ones_grow() {
    let src = section(33);
    let mut growing: Vec<RawAttribute> = Vec::new();
    let all = growing.parse(&src).unwrap().to_vec();
    assert_eq!(all.len(), 33);
    let mut last = 0;
    for rec in &all {
        assert_eq!(rec.off as usize, last + 4);
        assert_eq!(rec.pad, (4 - rec.len % 4) % 4);
        last = rec.off as usize + rec.len as usize + rec.pad as usize;
    }
    assert_eq!(last, src.len());

    let mut array = [RawAttribute::default(); 32];
    assert_eq!(array.parse(&src).err(), Some(StunError::TooManyAttributes));
    let mut slice = vec![RawAttribute::default(); 10];
    assert_eq!(slice[..].parse(&src).err(), Some(StunError::TooManyAttributes));
    let mut bounded = heapless::Vec::<RawAttribute, 32>::new();
    assert_eq!(bounded.parse(&src).err(), Some(StunError::TooManyAttributes));

    let mut array = [RawAttribute::default(); 33];
    assert_eq!(array.parse(&src).unwrap(), &all[..]);
    let mut slice = vec![RawAttribute::default(); 40];
    assert_eq!(slice[..].parse(&src).unwrap(), &all[..]);

    let src = section(32);
    assert_eq!(bounded.parse(&src).unwrap(), &all[..32]);
    assert_eq!(bounded.len(), 32);
    // what a container held before is gone
    let src = section(2);
    assert_eq!(bounded.parse(&src).unwrap(), &all[..2]);
    assert_eq!(bounded.len(), 2);
    assert_eq!(growing.parse(&src).unwrap(), &all[..2]);
    assert_eq!(growing.len(), 2);
    assert_eq!(RawAttribute::parse_slots(&src, &mut array), Ok(2));
    assert_eq!(RawAttribute::read_at(&src, 0), Ok(all[0]));
}

#[test]
fn a_full_container_is_reported_before_a_bad_attribute() {
    let mut src = section(2);
    src.extend_from_slice(&[0x00, 0x06, 0x00, 0x09]);
    let mut two = [RawAttribute::default(); 2];
    assert_eq!(two.parse(&src).err(), Some(StunError::TooManyAttributes));
    let mut three = [RawAttribute::default(); 3];
    assert_eq!(
        three.parse(&src).err(),
        Some(StunError::AttributeTooBig { attr: Type::new(6), off: 20, rem: 0, len: 9 })
    );
}

#[test]
fn parser_decodes_each_attribute_by_itself() {
    let mut buf = [0u8; 28];
    let rest = Priority::new(7).encode(&mut buf, &id()).unwrap();
    let rest = Data::new(&b"abcde"[..]).encode(rest, &id()).unwrap();
    Lifetime::new(600).encode(rest, &id()).unwrap();
    let header = Header::new(Class::Request, Method(Method::BINDING), 28, id());
    let mut slots: Vec<RawAttribute> = Vec::new();
    let msg = MessageParser::from_header_and_attrs(header, &buf, &mut slots).unwrap();
    assert_eq!(msg.attributes().len(), 3);
    let decoded = msg.iter::<Priority>();
    assert_eq!(decoded.len(), 3);
    assert_eq!(decoded[0], Ok(Priority::new(7)));
    assert_eq!(decoded[1], Err(StunError::IntegerLenMismatch { expected: 4, actual: 5 }));
    assert_eq!(decoded[2], Ok(Priority::new(600)));
    let unknown = msg.iter::<UnknownAttribute>();
    assert_eq!(unknown[1].as_ref().unwrap().attr(), Type::new(Type::DATA));
    assert_eq!(unknown[1].as_ref().unwrap().value(), b"abcde");
}

#[test]
fn plain_addresses() {
    let v4 = SocketAddr::V4 { ip: [192, 0, 2, 1], port: 32853 };
    let v6 = SocketAddr::V6 { ip: [0x20, 1, 0xd, 0xb8, 0, 0, 0, 0, 0, 0, 0, 0, 0, 0, 0, 1], port: 443 };
    assert_eq!(encoded_value_len(&v4), 8);
    assert_eq!(encoded_value_len(&v6), 20);
    assert_eq!(v4.port(), 32853);
    assert_eq!(v6.family(), AddressFamily::IPv6);
    let mut buf = [0xffu8; 24];
    let rest = encode(Type::new(Type::MAPPED_ADDRESS), &v4, &mut buf, ()).unwrap();
    assert_eq!(rest.len(), 12);
    assert_eq!(&buf[..12], &[0x00, 0x01, 0x00, 0x08, 0x00, 0x01, 0x80, 0x55, 192, 0, 2, 1]);
    assert_eq!(decode(&buf[4..12], ()), Ok(v4));
    let rest = MappedAddress::new(v6).encode(&mut buf, &id()).unwrap();
    assert!(rest.is_empty());
    assert_eq!(&buf[..8], &[0x00, 0x01, 0x00, 0x14, 0x00, 0x02, 0x01, 0xbb]);
    assert_eq!(&buf[8..], &[0x20, 1, 0xd, 0xb8, 0, 0, 0, 0, 0, 0, 0, 0, 0, 0, 0, 1]);
    assert_eq!(MappedAddress::decode(Type::new(1), &buf[4..], &id()), Ok(MappedAddress::new(v6)));
    assert_eq!(AlternateServer::new(v4).attribute_type(), Type::new(Type::ALTERNATE_SERVER));
    assert_eq!(AlternateServer::new(v4).encoded_value_len(), 8);
    assert_eq!(AlternateServer::new(v4).encoded_len(), 12);
}

#[test]
fn masked_addresses() {
    let v4 = SocketAddr::V4 { ip: [192, 0, 2, 1], port: 32853 };
    let key = id();
    let mut buf = [0xffu8; 12];
    encode(Type::new(Type::XOR_PEER_ADDRESS), &v4, &mut buf, &key).unwrap();
    assert_eq!(buf, [0x00, 0x12, 0x00, 0x08, 0x00, 0x01, 0xa1, 0x47, 0xe1, 0x12, 0xa6, 0x43]);
    assert_eq!(decode(&buf[4..], &key), Ok(v4));
    assert_eq!(decode(&buf[4..], Some(&key)), Ok(v4));
    assert_eq!(
        decode(&buf[4..], None::<&TransactionId>),
        Ok(SocketAddr::V4 { ip: [0xe1, 0x12, 0xa6, 0x43], port: 0xa147 })
    );
    assert_eq!(XorPeerAddress::decode(Type::new(0x12), &buf[4..], &key), Ok(XorPeerAddress::new(v4)));
    assert_eq!(XorRelayedAddress::attr_type(), Type::new(Type::XOR_RELAYED_ADDRESS));
    assert_eq!(XorMappedAddress::attr_type(), Type::new(Type::XOR_MAPPED_ADDRESS));
    // the mask twice is no mask
    let mut port = 32853;
    (&key).port(&mut port);
    assert_eq!(port, 32853 ^ 0x2112);
    (&key).port(&mut port);
    assert_eq!(port, 32853);
    let mut ip = [1u8, 2, 3, 4];
    (&key).ipv4(&mut ip);
    assert_eq!(ip, [1 ^ 0x21, 2 ^ 0x12, 3 ^ 0xa4, 4 ^ 0x42]);
    (&key).ipv4(&mut ip);
    assert_eq!(ip, [1, 2, 3, 4]);
    let mut ip = [0u8; 16];
    Some(&key).ipv6(&mut ip);
    assert_eq!(&ip[..4], &[0x21, 0x12, 0xa4, 0x42]);
    assert_eq!(&ip[4..], key.get());
    Some(&key).ipv6(&mut ip);
    assert_eq!(ip, [0; 16]);
    ().ipv6(&mut ip);
    None::<&TransactionId>.ipv4(&mut [0; 4]);
    assert_eq!(ip, [0; 16]);
}

#[test]
fn address_faults() {
    let v4 = SocketAddr::V4 { ip: [192, 0, 2, 1], port: 32853 };
    let v6 = SocketAddr::V6 { ip: [0; 16], port: 1 };
    let mut buf = [0xffu8; 24];
    assert_eq!(encode(Type::new(1), &v4, &mut buf[..3], ()).err(), Some(StunError::TypeLenTooBig));
    assert_eq!(
        encode(Type::new(1), &v4, &mut buf[..7], ()).err(),
        Some(StunError::AddressHeaderTooBig)
    );
    assert_eq!(
        encode(Type::new(1), &v4, &mut buf[..11], ()).err(),
        Some(StunError::IpLenMismatch { is_v6: false, actual: 3 })
    );
    assert_eq!(
        encode(Type::new(1), &v6, &mut buf[..23], ()).err(),
        Some(StunError::IpLenMismatch { is_v6: true, actual: 15 })
    );
    assert_eq!(buf, [0xff; 24]);
    assert_eq!(decode(&[0, 1, 2], ()).err(), Some(StunError::AddressHeaderTooBig));
    assert_eq!(decode(&[0, 3, 0, 0, 1, 2, 3, 4], ()).err(), Some(StunError::InvalidFamily { family: 3 }));
    assert_eq!(
        decode(&[0, 1, 0, 0, 1, 2, 3], ()).err(),
        Some(StunError::IpLenMismatch { is_v6: false, actual: 3 })
    );
    assert_eq!(
        decode(&[0, 2, 0, 0, 1, 2, 3, 4], ()).err(),
        Some(StunError::IpLenMismatch { is_v6: true, actual: 4 })
    );
    assert_eq!(into_family(1), Ok(AddressFamily::IPv4));
    assert_eq!(into_family(2), Ok(AddressFamily::IPv6));
    assert_eq!(into_family(0), Err(StunError::InvalidFamily { family: 0 }));
    assert_eq!(from_family(AddressFamily::IPv6), 2);
}

#[test]
fn address_families() {
    let mut buf = [0xffu8; 8];
    let rest = encode_family(Type::new(Type::REQUESTED_ADDRESS_FAMILY), AddressFamily::IPv6, &mut buf)
        .unwrap();
    assert!(rest.is_empty());
    assert_eq!(buf, [0x00, 0x17, 0x00, 0x04, 0x02, 0, 0, 0]);
    assert_eq!(decode_family(&buf[4..]), Ok(AddressFamily::IPv6));
    assert_eq!(decode_family(&[1, 9, 9, 9]), Ok(AddressFamily::IPv4));
    assert_eq!(decode_family(&[1, 0, 0]), Err(StunError::FamilyLenMismatch { actual: 3 }));
    assert_eq!(decode_family(&[7, 0, 0, 0]), Err(StunError::InvalidFamily { family: 7 }));
    let a = AdditionalAddressFamily::new(AddressFamily::IPv4);
    assert_eq!(a.family(), AddressFamily::IPv4);
    assert_eq!(a.attribute_type(), Type::new(0x8000));
    a.encode(&mut buf, &id()).unwrap();
    assert_eq!(buf, [0x80, 0x00, 0x00, 0x04, 0x01, 0, 0, 0]);
    assert_eq!(
        RequestedAddressFamily::decode(Type::new(0x17), &buf[4..], &id()),
        Ok(RequestedAddressFamily::new(AddressFamily::IPv4))
    );
    assert_eq!(
        encode_family(Type::new(0x17), AddressFamily::IPv4, &mut buf[..7]).err(),
        Some(StunError::BufferTooSmallForValue { rem: 7, len: 4 })
    );
}

#[test]
fn integers() {
    let mut buf = [0xffu8; 12];
    let rest = encode_integer::<4>(Type::new(Type::LIFETIME), &mut buf, &[0, 0, 2, 0x58]).unwrap();
    assert_eq!(rest.len(), 4);
    assert_eq!(&buf[..8], &[0x00, 0x0d, 0x00, 0x04, 0, 0, 2, 0x58]);
    assert_eq!(decode_integer::<4>(&buf[4..8]), Ok([0, 0, 2, 0x58]));
    assert_eq!(
        decode_integer::<4>(&buf[4..7]),
        Err(StunError::IntegerLenMismatch { expected: 4, actual: 3 })
    );
    assert_eq!(
        decode_integer::<8>(&buf[..4]),
        Err(StunError::IntegerLenMismatch { expected: 8, actual: 4 })
    );
    let tie = IceControlled::new(0x932f_f9b1_5126_3b36);
    assert_eq!(tie.value(), 0x932f_f9b1_5126_3b36);
    assert_eq!(tie.encoded_value_len(), 8);
    let rest = tie.encode(&mut buf, &id()).unwrap();
    assert!(rest.is_empty());
    assert_eq!(buf, [0x80, 0x29, 0x00, 0x08, 0x93, 0x2f, 0xf9, 0xb1, 0x51, 0x26, 0x3b, 0x36]);
    assert_eq!(IceControlled::decode(Type::new(0x8029), &buf[4..], &id()), Ok(tie));
    assert_eq!(IceControlling::attr_type(), Type::new(Type::ICE_CONTROLLING));
    let crc = Fingerprint::new(0xe57a_3bcf);
    crc.encode(&mut buf, &id()).unwrap();
    assert_eq!(&buf[..8], &[0x80, 0x28, 0x00, 0x04, 0xe5, 0x7a, 0x3b, 0xcf]);
    assert_eq!(Fingerprint::decode(Type::new(0x8028), &buf[4..8], &id()), Ok(crc));
    assert_eq!(RequestedTransport::new(17 << 24).attribute_type(), Type::new(0x19));
    assert_eq!(
        crc.encode(&mut buf[..7], &id()).err(),
        Some(StunError::BufferTooSmallForValue { rem: 7, len: 4 })
    );
}

#[test]
fn fixed_values() {
    let hmac = [0x9au8; 20];
    let mut buf = [0xffu8; 24];
    let rest = encode_fixed(Type::new(Type::MESSAGE_INTEGRITY), &mut buf, &hmac).unwrap();
    assert!(rest.is_empty());
    assert_eq!(&buf[..4], &[0x00, 0x08, 0x00, 0x14]);
    assert_eq!(&buf[4..], &hmac);
    assert_eq!(decode_fixed::<20>(&buf[4..]), Ok(&hmac));
    assert_eq!(
        decode_fixed::<20>(&buf[4..23]),
        Err(StunError::FixedLenMismatch { expected: 20, actual: 19 })
    );
    assert_eq!(
        decode_fixed::<32>(&buf[4..]),
        Err(StunError::FixedLenMismatch { expected: 32, actual: 20 })
    );
    let a = MessageIntegrity::decode(Type::new(8), &buf[4..], &id()).unwrap();
    assert_eq!(a.value(), &hmac);
    assert_eq!(a.into_inner(), &hmac);
    assert_eq!(a.encoded_value_len(), 20);
    let hash = [3u8; 32];
    assert_eq!(UserHash::new(&hash).attribute_type(), Type::new(Type::USERHASH));
    assert_eq!(MessageIntegritySha256::new(&hash).encoded_len(), 36);
    // a value of three bytes is padded
    let mut buf = [0xffu8; 8];
    encode_fixed(Type::new(0x7777), &mut buf, &[1, 2, 3]).unwrap();
    assert_eq!(buf, [0x77, 0x77, 0x00, 0x03, 1, 2, 3, 0]);
}

#[test]
fn attributes_without_a_value() {
    let mut buf = [0xffu8; 6];
    let rest = encode_empty(Type::new(Type::USE_CANDIDATE), &mut buf).unwrap();
    assert_eq!(rest.len(), 2);
    assert_eq!(buf, [0x00, 0x25, 0x00, 0x00, 0xff, 0xff]);
    assert_eq!(encode_empty(Type::new(0x25), &mut buf[..3]).err(), Some(StunError::TypeLenTooBig));
    assert_eq!(decode_empty(&[]), Ok(()));
    assert_eq!(decode_empty(&[0]), Err(StunError::EmptyLenMismatch { actual: 1 }));
    assert!(UseCandidate::decode(Type::new(0x25), &[], &id()).is_ok());
    assert_eq!(
        DontFragment::decode(Type::new(0x1a), &[1, 2], &id()).err(),
        Some(StunError::EmptyLenMismatch { actual: 2 })
    );
    assert_eq!(DontFragment::attr_type(), Type::new(Type::DONT_FRAGMENT));
    assert_eq!(UseCandidate::new().encoded_value_len(), 0);
}

#[test]
fn data() {
    let owned = Data::new(vec![1u8, 2, 3]);
    assert_eq!(owned.data(), &[1, 2, 3]);
    assert_eq!(owned.attribute_type(), Type::new(Data::<Vec<u8>>::TYPE));
    assert_eq!(owned.encoded_value_len(), 3);
    let mut buf = [0xffu8; 8];
    owned.encode(&mut buf, &id()).unwrap();
    assert_eq!(buf, [0x00, 0x13, 0x00, 0x03, 1, 2, 3, 0]);
    let borrowed = Data::<&[u8]>::decode(Type::new(0x13), &buf[4..7], &id()).unwrap();
    assert_eq!(borrowed.data(), &[1, 2, 3]);
    assert_eq!((&[4u8, 5][..]).as_bytes(), &[4, 5]);
}

#[test]
fn change_requests() {
    for (ip, port, bits) in [(false, false, 0u8), (false, true, 2), (true, false, 4), (true, true, 6)] {
        let c = ChangeRequest::new(ip, port);
        assert_eq!((c.ip(), c.port()), (ip, port));
        let mut buf = [0xffu8; 8];
        c.encode(&mut buf, &id()).unwrap();
        assert_eq!(buf, [0x00, 0x03, 0x00, 0x04, 0, 0, 0, bits]);
        assert_eq!(ChangeRequest::decode(Type::new(3), &buf[4..], &id()), Ok(c));
    }
    // other bits are not looked at
    assert_eq!(
        ChangeRequest::decode(Type::new(3), &[0xff, 0xff, 0xff, 0xf9], &id()),
        Ok(ChangeRequest::new(false, false))
    );
    assert_eq!(
        ChangeRequest::decode(Type::new(3), &[0, 0, 4], &id()),
        Err(StunError::IntegerLenMismatch { expected: 4, actual: 3 })
    );
    assert_eq!(ChangeRequest::TYPE, Type::CHANGE_REQUEST);
}

#[test]
fn error_codes() {
    assert_eq!(
        ErrorCode::new(299, "x").err(),
        Some(StunError::InvalidErrorCode { class: 2, number: 99 })
    );
    assert_eq!(
        ErrorCode::new(700, "x").err(),
        Some(StunError::InvalidErrorCode { class: 7, number: 0 })
    );
    assert_eq!(
        ErrorCode::new(65535, "x").err(),
        Some(StunError::InvalidErrorCode { class: 143, number: 35 })
    );
    let code = ErrorCode::new(420, "Unknown Attribute").unwrap();
    assert_eq!(code.code(), 420);
    assert_eq!(code.reason_phrase(), "Unknown Attribute");
    assert_eq!(code.attribute_type(), Type::new(Type::ERROR_CODE));
    assert_eq!(code.encoded_value_len(), 21);
    let mut buf = [0xffu8; 28];
    let rest = code.encode(&mut buf, &id()).unwrap();
    assert!(rest.is_empty());
    assert_eq!(&buf[..8], &[0x00, 0x09, 0x00, 0x15, 0, 0, 4, 20]);
    assert_eq!(&buf[8..25], b"Unknown Attribute");
    assert_eq!(&buf[25..], &[0, 0, 0]);
    let back = ErrorCode::decode(Type::new(9), &buf[4..25], &id()).unwrap();
    assert_eq!(back.code(), 420);
    assert_eq!(back.reason_phrase(), "Unknown Attribute");
    assert_eq!(back.validate_reason().unwrap().code(), 420);
    assert_eq!(back.into_inner().as_str(), "Unknown Attribute");
    assert_eq!(
        code.encode(&mut buf[..27], &id()).err(),
        Some(StunError::BufferTooSmallForValue { rem: 27, len: 21 })
    );
    let long = ErrorCode::new(500, "x".repeat(128)).unwrap();
    assert_eq!(
        long.encode(&mut [0u8; 200], &id()).err(),
        Some(StunError::StringTooLong { bytes: 128, chars: Some(128) })
    );
    assert_eq!(long.into_inner().len(), 128);
    let phrase = Validated::<&str, false, true, true>::try_from("Stale Nonce").unwrap();
    let code = ErrorCode::const_new(438, phrase).unwrap();
    assert_eq!(code.code(), 438);
    assert_eq!(
        ErrorCode::const_new(200, phrase).err(),
        Some(StunError::InvalidErrorCode { class: 2, number: 0 })
    );
    let mut buf = [0xffu8; 20];
    let rest = encode_error_code(Type::new(9), 438, phrase, 0, &mut buf).unwrap();
    assert!(rest.is_empty());
    assert_eq!(&buf[..], b"\x00\x09\x00\x0f\x00\x00\x04\x26Stale Nonce\x00");
    assert_eq!(
        encode_error_code(Type::new(9), 438, phrase, 0, &mut buf[..16]).err(),
        Some(StunError::BufferTooSmallForValue { rem: 16, len: 15 })
    );
}

#[test]
fn registered_error_codes() {
    let registered = [
        (300, "Try Alternate"),
        (400, "Bad Request"),
        (401, "Unauthenticated"),
        (403, "Forbidden"),
        (405, "Mobility Forbidden"),
        (420, "Unknown Attribute"),
        (437, "Allocation Mismatch"),
        (438, "Stale Nonce"),
        (440, "Address Family not Supported"),
        (441, "Wrong Credentials"),
        (442, "Unsupported Transport Protocol"),
        (443, "Peer Address Family Mismatch"),
        (446, "Connection Already Exists"),
        (447, "Connection Timeout or Failure"),
        (486, "Allocation Quota Reached"),
        (487, "Role Conflict"),
        (500, "Server Error"),
        (508, "Insufficient Capacity"),
    ];
    for (code, phrase) in registered {
        assert_eq!(reason_for(code), Some(phrase));
        let c = ErrorCode::from_status_code(code).unwrap();
        assert_eq!(c.code(), code);
        assert_eq!(c.reason_phrase(), phrase);
    }
    assert_eq!(reason_for(404), None);
    assert_eq!(ErrorCode::from_status_code(404), None);
    assert_eq!(ErrorCode::from_status_code(0), None);
}

#[test]
fn error_code_faults() {
    assert_eq!(decode_error_code(&[0, 0, 4], false).err(), Some(StunError::ErrorCodeTooBig));
    assert_eq!(
        decode_error_code(&[0, 0, 2, 0], false).err(),
        Some(StunError::InvalidErrorCode { class: 2, number: 0 })
    );
    assert_eq!(
        decode_error_code(&[0, 0, 6, 0], false).err(),
        Some(StunError::InvalidErrorCode { class: 6, number: 0 })
    );
    assert_eq!(
        decode_error_code(&[0, 0, 4, 100], false).err(),
        Some(StunError::InvalidErrorCode { class: 4, number: 100 })
    );
    // only the last three bits of the third byte count
    let (code, family) = decode_error_code(&[0, 0, 0xfb, 99, b'o', b'k'], false).unwrap();
    assert_eq!((code.code(), family), (399, None));
    assert_eq!(code.reason_phrase(), "ok");
    assert_eq!(
        decode_error_code(&[0, 0, 4, 1, 0xff], false).err(),
        Some(StunError::Utf8Error { valid_up_to: 0, error_len: Some(1) })
    );
    // the family is looked at before the phrase
    assert_eq!(
        decode_error_code(&[9, 0, 4, 1, 0xff], true).err(),
        Some(StunError::InvalidFamily { family: 9 })
    );
    assert_eq!(
        decode_error_code(&[2, 0, 4, 1, 0xff], true).err(),
        Some(StunError::Utf8Error { valid_up_to: 0, error_len: Some(1) })
    );
}

#[test]
fn address_error_codes() {
    let code = ErrorCode::new(440, "Address Family not Supported").unwrap();
    let a = AddressErrorCode::new(AddressFamily::IPv6, code);
    assert_eq!(a.family(), AddressFamily::IPv6);
    assert_eq!(a.code(), 440);
    assert_eq!(a.reason_phrase(), "Address Family not Supported");
    assert_eq!(a.attribute_type(), Type::new(Type::ADDRESS_ERROR_CODE));
    let mut buf = [0xffu8; 36];
    let rest = a.encode(&mut buf, &id()).unwrap();
    assert!(rest.is_empty());
    assert_eq!(&buf[..8], &[0x80, 0x01, 0x00, 0x20, 2, 0, 4, 40]);
    assert_eq!(&buf[8..], b"Address Family not Supported");
    let back = AddressErrorCode::decode(Type::new(0x8001), &buf[4..], &id()).unwrap();
    assert_eq!(back.family(), AddressFamily::IPv6);
    assert_eq!(back.code(), 440);
    assert_eq!(back.into_inner().as_str(), "Address Family not Supported");
    buf[4] = 0;
    assert_eq!(
        AddressErrorCode::decode(Type::new(0x8001), &buf[4..], &id()).err(),
        Some(StunError::InvalidFamily { family: 0 })
    );
}

#[test]
fn password_algorithm() {
    let sha = PasswordAlgorithm::new(Algorithm::new(Algorithm::SHA256), &b""[..]);
    assert_eq!(sha.algorithm().codepoint(), 2);
    assert_eq!(sha.parameters(), b"");
    assert_eq!(sha.encoded_value_len(), 4);
    let mut buf = [0xffu8; 8];
    let rest = sha.encode(&mut buf, &id()).unwrap();
    assert!(rest.is_empty());
    assert_eq!(buf, [0x00, 0x1d, 0x00, 0x04, 0x00, 0x02, 0x00, 0x00]);
    assert_eq!(PasswordAlgorithm::decode(Type::new(0x1d), &buf[4..], &id()), Ok(sha));
    let with = PasswordAlgorithm::new(Algorithm(7), vec![1u8, 2, 3]);
    let mut buf = [0xffu8; 12];
    with.encode(&mut buf, &id()).unwrap();
    assert_eq!(buf, [0x00, 0x1d, 0x00, 0x07, 0x00, 0x07, 0x00, 0x03, 1, 2, 3, 0]);
    assert_eq!(with.into_inner(), vec![1, 2, 3]);
    assert_eq!(
        PasswordAlgorithm::decode(Type::new(0x1d), &[0, 1, 0], &id()).err(),
        Some(StunError::PasswordAlgorithmTooBig)
    );
    assert_eq!(
        PasswordAlgorithm::decode(Type::new(0x1d), &[0, 1, 0, 2, 9], &id()).err(),
        Some(StunError::PasswordLenMismatch { expected: 2, actual: 1 })
    );
    let huge = vec![0u8; MAX_VALUE_LEN - 3];
    assert_eq!(
        PasswordAlgorithm::new(Algorithm(1), &huge[..]).encode(&mut [0u8; 8], &id()).err(),
        Some(StunError::ParamsTooLong)
    );
    assert_eq!(
        PasswordAlgorithm::new(Algorithm(1), &huge[..4]).encode(&mut [0u8; 8], &id()).err(),
        Some(StunError::BufferTooSmallForValue { rem: 8, len: 8 })
    );
}

#[test]
fn password_algorithms() {
    // MD5 without parameters, then an algorithm with 5 bytes of parameters
    let list = [0x00, 0x01, 0x00, 0x00, 0x00, 0x09, 0x00, 0x05, 1, 2, 3, 4, 5, 0, 0, 0];
    let parsed = PasswordAlgorithms::decode(Type::new(0x8002), &list, &id()).unwrap();
    assert_eq!(parsed.as_bytes(), &list);
    assert_eq!(parsed.attribute_type(), Type::new(Type::PASSWORD_ALGORITHMS));
    let all = parsed.to_vec();
    assert_eq!(
        all,
        vec![
            PasswordAlgorithm::new(Algorithm(1), &[][..]),
            PasswordAlgorithm::new(Algorithm(9), &[1, 2, 3, 4, 5][..]),
        ]
    );
    let mut it = parsed.iter();
    assert_eq!(it.next(), Some(all[0].clone()));
    assert_eq!(it.next(), Some(all[1].clone()));
    assert_eq!(it.next(), None);
    assert_eq!(it.next(), None);
    let mut buf = [0xffu8; 20];
    let rest = parsed.encode(&mut buf, &id()).unwrap();
    assert!(rest.is_empty());
    assert_eq!(&buf[..4], &[0x80, 0x02, 0x00, 0x10]);
    assert_eq!(&buf[4..], &list);
    // the padding of the last may be missing
    let parsed = PasswordAlgorithms::decode(Type::new(0x8002), &list[..13], &id()).unwrap();
    assert_eq!(parsed.to_vec(), all);
    assert_eq!(
        PasswordAlgorithms::decode(Type::new(0x8002), &list[..12], &id()).err(),
        Some(StunError::PassAlgoBadLen)
    );
    assert_eq!(
        PasswordAlgorithms::decode(Type::new(0x8002), &list[..6], &id()).err(),
        Some(StunError::PassAlgoBadHeader)
    );
    assert!(PasswordAlgorithms::decode(Type::new(0x8002), &[], &id()).unwrap().to_vec().is_empty());
    assert_eq!(next_alg(&list[..2]), Err(false));
    assert_eq!(next_alg(&list[4..9]), Err(true));
    assert_eq!(next_alg(&[]), Ok(None));
    assert_eq!(next_alg(&list), Ok(Some((all[0].clone(), &list[4..]))));
    assert_eq!(PasswordAlgorithms::new(5).into_inner(), 5);
}

#[test]
fn password_algorithms_from_a_list() {
    let list = [
        PasswordAlgorithm::new(Algorithm(1), &[][..]),
        PasswordAlgorithm::new(Algorithm(9), &[1, 2, 3, 4, 5][..]),
        PasswordAlgorithm::new(Algorithm(2), &[7][..]),
    ];
    // 4, then 4 + 5 + 3, then 4 + 1 without its padding
    assert_eq!(value_len(&list), Ok(21));
    assert_eq!(value_len(&list[..2]), Ok(13));
    assert_eq!(value_len(&list[..1]), Ok(4));
    assert_eq!(value_len(&list[..0]), Ok(0));
    let attribute = PasswordAlgorithms::new(&list[..]);
    assert_eq!(attribute.encoded_value_len(), 21);
    assert_eq!(attribute.encoded_len(), 28);
    let mut buf = [0xffu8; 30];
    let rest = attribute.encode(&mut buf, &id()).unwrap();
    assert_eq!(rest, [0xff, 0xff]);
    assert_eq!(
        &buf[..28],
        &[
            0x80, 0x02, 0x00, 0x15, 0x00, 0x01, 0x00, 0x00, 0x00, 0x09, 0x00, 0x05, 1, 2, 3, 4, 5,
            0, 0, 0, 0x00, 0x02, 0x00, 0x01, 7, 0, 0, 0
        ]
    );
    let parsed = PasswordAlgorithms::decode(Type::new(0x8002), &buf[4..25], &id()).unwrap();
    assert_eq!(parsed.to_vec(), list);
    let mut buf = [0xffu8; 27];
    assert_eq!(
        attribute.encode(&mut buf, &id()).err(),
        Some(StunError::BufferTooSmallForValue { rem: 27, len: 21 })
    );
    assert_eq!(buf, [0xff; 27]);
    let huge = vec![0u8; MAX_VALUE_LEN - 3];
    let bad = [list[0].clone(), PasswordAlgorithm::new(Algorithm(1), &huge[..])];
    assert_eq!(value_len(&bad), Err(StunError::ParamsTooLong));
    assert_eq!(
        PasswordAlgorithms::new(&bad[..]).encode(&mut [0u8; 8], &id()).err(),
        Some(StunError::ParamsTooLong)
    );
    let half = vec![0u8; 40000];
    let long = [
        PasswordAlgorithm::new(Algorithm(1), &half[..]),
        PasswordAlgorithm::new(Algorithm(1), &half[..]),
    ];
    assert_eq!(value_len(&long), Err(StunError::ValueTooLong { len: 80008 }));
    assert_eq!(PasswordAlgorithms::new(&long[..]).encoded_value_len(), 0);
}

#[test]
fn unknown_attributes() {
    let types = [Type::new(0x0002), Type::new(0x8099), Type::new(0x7f00)];
    let list = UnknownAttributes::new(&types[..]);
    assert_eq!(list.attribute_type(), Type::new(Type::UNKNOWN_ATTRIBUTES));
    assert_eq!(list.encoded_value_len(), 6);
    let mut buf = [0xffu8; 12];
    let rest = list.encode(&mut buf, &id()).unwrap();
    assert!(rest.is_empty());
    assert_eq!(buf, [0x00, 0x0a, 0x00, 0x06, 0x00, 0x02, 0x80, 0x99, 0x7f, 0x00, 0, 0]);
    let parsed = UnknownAttributes::from_bytes(&buf[4..10]).unwrap();
    assert_eq!(parsed.as_bytes(), &buf[4..10]);
    assert_eq!(parsed.iter(), types);
    assert_eq!(parsed.encoded_value_len(), 6);
    let mut again = [0xffu8; 12];
    parsed.encode(&mut again, &id()).unwrap();
    assert_eq!(again, buf);
    assert_eq!(
        UnknownAttributes::from_bytes(&buf[4..9]).err(),
        Some(StunError::InvalidAttrTypeArray)
    );
    assert_eq!(
        UnknownAttributes::decode(Type::new(0xa), &buf[4..7], &id()).err(),
        Some(StunError::InvalidAttrTypeArray)
    );
    assert!(UnknownAttributes::from_bytes(&[]).unwrap().iter().is_empty());
    assert_eq!(
        encode_unknown_attributes(&types, &mut buf[..11]).err(),
        Some(StunError::BufferTooSmallForValue { rem: 11, len: 6 })
    );
    assert_eq!(len_from_count(3), 6);
    assert_eq!(len_from_count(0x8001), 2);
    assert_eq!(convert(0x80, 0x22), Type::new(Type::SOFTWARE));
    assert_eq!(UnknownAttributes::new(7).into_inner(), 7);
}

#[test]
fn unknown_attribute() {
    let a = UnknownAttribute::new(Type::new(0x7777), b"abc").unwrap();
    assert_eq!(a.attr(), Type::new(0x7777));
    assert_eq!(a.value(), b"abc");
    assert_eq!(a.attribute_type(), Type::new(0x7777));
    assert_eq!(a.encoded_value_len(), 3);
    let mut buf = [0xffu8; 8];
    a.encode(&mut buf, &id()).unwrap();
    assert_eq!(buf, [0x77, 0x77, 0x00, 0x03, b'a', b'b', b'c', 0]);
    assert_eq!(UnknownAttribute::decode(Type::new(0x7777), b"abc", &id()), Ok(a));
    let long = vec![0u8; MAX_VALUE_LEN + 1];
    assert_eq!(
        UnknownAttribute::new(Type::new(1), &long).err(),
        Some(StunError::ValueTooLong { len: 65529 })
    );
    assert!(UnknownAttribute::new(Type::new(1), &long[..MAX_VALUE_LEN]).is_ok());
}
