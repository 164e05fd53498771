use stun_message::attribute::string::dns::validate_domain_name;
use stun_message::attribute::string::error::StringTooLong;
use stun_message::attribute::string::length::{validate_str_bytes, validate_str_len};
use stun_message::attribute::string::opaque::{is_opaque_string, is_opaque_string_ascii};
use stun_message::attribute::string::quoted::{is_quoted_text, is_quoted_text_ascii};
use stun_message::attribute::string::validated::validate_quoted_opaque;
use stun_message::attribute::string::{AlternateDomain, Nonce, Realm, Software, Username};
use stun_message::attribute::{AsStr, DecodeAttribute, EncodeAttribute, Type, Validated};
use stun_message::header::TransactionId;
use stun_message::StunError;

/// A name of `n` letters with dots after the label lengths given.
fn len_gen(n: usize, dots: &[u8]) -> Vec<u8> {
    let mut x = vec![b'a'; n];
    let mut j = 0;
    for &d in dots {
        j += d as usize;
        x[j] = b'.';
        j += 1;
    }
    x
}

fn valid_names() -> Vec<Vec<u8>> {
    let mut names: Vec<Vec<u8>> = vec![
        b"example.com".to_vec(),
        b"subdomain.example.com".to_vec(),
        b"www.subdomain.example.com".to_vec(),
        b"xn--h1alffa9f.xn--p1ai".to_vec(),
        b"xn--kxae4bafwg.xn--pxaix.gr".to_vec(),
        b"xn--clchc0ea0b2g2a9gcd.xn--vermgensberatung-pwb".to_vec(),
        b"a.label.with.dashes.com".to_vec(),
        b"a--label--with--double--dashes.com".to_vec(),
        b"label123.abc".to_vec(),
        b"a123.label.with.numbers.com".to_vec(),
        b"a-b-c-d-e-f-g-h-i-j-k-l-m-n-o-p-q-r-s-t-u-v-w-x-y-z.com".to_vec(),
        b"localhost".to_vec(),
        b"localhost.".to_vec(),
        b"localhost.com.".to_vec(),
        b"mdns-name.local.".to_vec(),
        b"mailserver.example".to_vec(),
        b"666mydomain.com".to_vec(),
        b"666.mydomain.com".to_vec(),
        b"mydomain666".to_vec(),
    ];
    names.push(len_gen(192, &[63, 63, 63]));
    names.push(len_gen(253, &[63, 63, 63]));
    names
}

fn invalid_names() -> Vec<Vec<u8>> {
    let mut names: Vec<Vec<u8>> = vec![
        b"label_underscore.com".to_vec(),
        b"1.2.3.4".to_vec(),
        b"2001:0db8:85a3:0000:0000:8a2e:0370:7334".to_vec(),
        b"2001:db8::1".to_vec(),
    ];
    names.push(len_gen(64, &[]));
    names.push(len_gen(254, &[]));
    names.push(len_gen(254, &[63, 63, 63]));
    names.push("\u{440}\u{43e}\u{441}\u{441}\u{438}\u{44f}.\u{440}\u{444}".as_bytes().to_vec());
    names.push("\u{3bf}\u{3c5}\u{3c4}\u{3bf}\u{3c0}\u{3af}\u{3b1}.\u{3b4}\u{3c0}\u{3b8}.gr".as_bytes().to_vec());
    names.push("\u{b9a}\u{bbf}\u{b99}\u{bcd}\u{b95}\u{baa}\u{bcd}\u{baa}\u{bc2}\u{bb0}\u{bcd}.verm\u{f6}gensberatung".as_bytes().to_vec());
    names.push(b"~".to_vec());
    names.push(b"\x80".to_vec());
    names.push("\u{80}".as_bytes().to_vec());
    names.push(b"".to_vec());
    names.push(b".".to_vec());
    names.push(b"..".to_vec());
    names.push(b".localhost".to_vec());
    names.push(b"..localhost".to_vec());
    names.push(b"localhost..".to_vec());
    names.push(b"example..com".to_vec());
    names.push(b"example.-com".to_vec());
    names.push(b"example.com-".to_vec());
    names.push(b"example.-.com".to_vec());
    names.push(b"ex_ample.com".to_vec());
    names.push(b"example.com_".to_vec());
    names.push(b"example.com-".to_vec());
    names.push(b"example._.com".to_vec());
    names.push(b"example..com".to_vec());
    names.push(b".example.com".to_vec());
    names.push(b"mydomain.666".to_vec());
    names
}

#[test]
fn test_dns_validation() {
    let valid = valid_names();
    assert_eq!(valid.len(), 21);
    let invalid = invalid_names();
    assert_eq!(invalid.len(), 30);
    for name in valid.iter().filter(|s| s.is_ascii()) {
        assert!(
            validate_domain_name(name).is_ok(),
            "\"{:?}\" should be valid domain name",
            core::str::from_utf8(name),
        );
    }
    for name in valid.iter().filter(|s| !s.is_ascii()).chain(&invalid) {
        assert!(
            validate_domain_name(name).is_err(),
            "\"{:?}\" should not be valid domain name",
            core::str::from_utf8(name),
        );
    }
}

#[test]
fn domain_name_comes_back_as_text() {
    assert_eq!(validate_domain_name(b"example.com"), Ok("example.com"));
    assert_eq!(validate_domain_name(b"1.2.3.4"), Err(StunError::InvalidDnsName));
}

#[test]
fn domain_name_limits() {
    // a label of 63 bytes is the longest
    assert!(validate_domain_name(&len_gen(63, &[])).is_ok());
    assert!(validate_domain_name(&len_gen(64, &[])).is_err());
    // 253 bytes are the longest name
    assert!(validate_domain_name(&len_gen(253, &[63, 63, 63])).is_ok());
    assert!(validate_domain_name(&len_gen(254, &[63, 63, 63])).is_err());
    // a label of digits may stand anywhere but last
    assert!(validate_domain_name(b"123.abc").is_ok());
    assert!(validate_domain_name(b"abc.123").is_err());
    assert!(validate_domain_name(b"abc.123.").is_err());
    assert!(validate_domain_name(b"abc.1-3").is_ok());
    assert!(validate_domain_name(b"-abc").is_err());
    assert!(validate_domain_name(b"abc-").is_err());
}

fn valid_quoted() -> [&'static str; 21] {
    [
        "",
        "!",
        "#",
        "[",
        "]",
        "~",
        "\u{80}",
        "\u{7ff}",
        "\u{f03f}",
        "\u{10ffff}",
        "\\\u{0}",
        "\\\u{9}",
        "\\\u{b}",
        "\\\u{c}",
        "\\\u{e}",
        "\\\u{7f}",
        "\\\u{8a}",
        "\\abcdfg\\h",
        "\\abfg\\h\u{10ffff}",
        "hello world",
        " \u{d}\u{a}   hello",
    ]
}

fn invalid_quoted() -> [&'static str; 3] {
    [
        "\\\u{a}",
        "\\\u{d}",
        " \u{d} hello",
    ]
}

#[test]
fn test_quoted_text() {
    for valid in valid_quoted() {
        assert!(is_quoted_text(valid), "\"{valid}\" should be valid quoted text");
    }
    for invalid in invalid_quoted() {
        assert!(!is_quoted_text(invalid), "\"{invalid}\" should not be valid quoted text");
    }
}

#[test]
fn test_quoted_text_ascii() {
    for valid in valid_quoted().iter().filter(|s| s.is_ascii()) {
        assert!(is_quoted_text_ascii(valid), "\"{valid}\" should be valid quoted ascii text");
    }
    for invalid in valid_quoted().iter().filter(|s| !s.is_ascii()).chain(&invalid_quoted()) {
        assert!(
            !is_quoted_text_ascii(invalid),
            "\"{invalid}\" should not be valid quoted ascii text"
        );
    }
}

#[test]
fn any_character_but_a_line_break_may_follow_a_backslash() {
    assert!(is_quoted_text("\\\u{8a}"));
    assert!(is_quoted_text("a\\\u{30de}b"));
    assert!(is_quoted_text("\\\u{10ffff}"));
    assert!(is_quoted_text("\\\"\\\\"));
    assert!(!is_quoted_text("\\\n"));
    assert!(!is_quoted_text("\\\r"));
    assert!(!is_quoted_text("\\\u{8a}\\"));
    // beyond ASCII nothing is quoted text of ASCII alone
    assert!(!is_quoted_text_ascii("\\\u{8a}"));
    assert!(is_quoted_text_ascii("\\\u{7f}"));
}

#[test]
fn quoted_text_needs_a_blank_after_a_line_break() {
    assert!(is_quoted_text("a\r\n b"));
    assert!(is_quoted_text("a\r\n\tb"));
    assert!(!is_quoted_text("a\r\nb"));
    assert!(!is_quoted_text("a\r\n"));
    assert!(!is_quoted_text("a\r"));
    assert!(!is_quoted_text("a\nb"));
    assert!(!is_quoted_text("say \"hi\""));
    assert!(is_quoted_text("say \\\"hi\\\""));
    assert!(!is_quoted_text("ends with \\"));
}

#[test]
fn opaque_string_keeps_controls_out() {
    assert!(is_opaque_string(""));
    assert!(is_opaque_string("evtj:h6vY"));
    assert!(is_opaque_string("\u{30de}\u{30c8}\u{30ea}\u{30c3}\u{30af}\u{30b9}"));
    assert!(is_opaque_string("a b~"));
    assert!(!is_opaque_string("a\tb"));
    assert!(!is_opaque_string("a\u{0}b"));
    assert!(!is_opaque_string("a\u{7f}"));
    assert!(!is_opaque_string("a\u{85}"));
    assert!(!is_opaque_string("soft\u{ad}hyphen"));
    assert!(!is_opaque_string("zero\u{200b}width"));
    assert!(!is_opaque_string("\u{feff}mark"));
    assert!(!is_opaque_string("\u{1100}"));
    assert!(!is_opaque_string("\u{fdd0}"));
    assert!(!is_opaque_string("\u{ffff}"));
    assert!(!is_opaque_string("\u{10fffe}"));
    assert!(is_opaque_string("\u{a0}\u{10fffd}"));
}

#[test]
fn opaque_string_ascii_takes_printable_ascii_alone() {
    assert!(is_opaque_string_ascii(""));
    assert!(is_opaque_string_ascii("evtj:h6vY ~"));
    assert!(!is_opaque_string_ascii("a\tb"));
    assert!(!is_opaque_string_ascii("a\u{7f}"));
    assert!(!is_opaque_string_ascii("\u{30de}"));
}

#[test]
fn text_of_127_characters_is_the_longest() {
    let ascii_127 = "a".repeat(127);
    let ascii_128 = "a".repeat(128);
    assert_eq!(validate_str_len(&ascii_127), Ok(()));
    assert_eq!(
        validate_str_len(&ascii_128),
        Err(StunError::StringTooLong { bytes: 128, chars: Some(128) })
    );
    // 127 characters of 4 bytes each: 508 bytes
    let wide_127 = "\u{10000}".repeat(127);
    assert_eq!(wide_127.len(), 508);
    assert_eq!(validate_str_len(&wide_127), Ok(()));
    // 128 characters of 3 bytes each: counted
    let wide_128 = "\u{30de}".repeat(128);
    assert_eq!(
        validate_str_len(&wide_128),
        Err(StunError::StringTooLong { bytes: 384, chars: Some(128) })
    );
    // over 508 bytes nothing is counted
    let long = "a".repeat(509);
    assert_eq!(validate_str_len(&long), Err(StunError::StringTooLong { bytes: 509, chars: None }));
    // 300 characters: the count keeps its last byte
    let many = "\u{e9}".repeat(250);
    assert_eq!(
        validate_str_len(&many),
        Err(StunError::StringTooLong { bytes: 500, chars: Some(250) })
    );
    let more = "a".repeat(300);
    assert_eq!(
        validate_str_len(&more),
        Err(StunError::StringTooLong { bytes: 300, chars: Some(44) })
    );
}

#[test]
fn string_too_long_keeps_what_fits() {
    assert_eq!(StringTooLong::new(70000, None), StringTooLong { bytes: 65535, chars: None });
    assert_eq!(StringTooLong::new(300, Some(257)), StringTooLong { bytes: 300, chars: Some(1) });
    assert_eq!(
        StringTooLong::new(300, Some(200)).into_error(),
        StunError::StringTooLong { bytes: 300, chars: Some(200) }
    );
}

#[test]
fn text_from_bytes() {
    assert_eq!(validate_str_bytes(b"test vector"), Ok("test vector"));
    assert_eq!(validate_str_bytes("\u{30de}\u{30c8}".as_bytes()), Ok("\u{30de}\u{30c8}"));
    assert_eq!(
        validate_str_bytes(&[b'a', b'b', 0xff, b'c']),
        Err(StunError::Utf8Error { valid_up_to: 2, error_len: Some(1) })
    );
    // the input ends inside a character
    assert_eq!(
        validate_str_bytes(&[b'a', 0xe3, 0x83]),
        Err(StunError::Utf8Error { valid_up_to: 1, error_len: None })
    );
    assert_eq!(
        validate_str_bytes(&[b'a'; 509]),
        Err(StunError::StringTooLong { bytes: 509, chars: None })
    );
    assert_eq!(
        validate_str_bytes(&[b'a'; 128]),
        Err(StunError::StringTooLong { bytes: 128, chars: Some(128) })
    );
    assert!(validate_str_bytes("\u{10000}".repeat(127).as_bytes()).is_ok());
}

#[test]
fn quoted_and_opaque_are_checked_where_asked_for() {
    assert_eq!(validate_quoted_opaque::<true, true>("realm"), Ok(()));
    assert_eq!(validate_quoted_opaque::<true, false>("a\"b"), Err(StunError::StringNotQuoted));
    assert_eq!(validate_quoted_opaque::<false, false>("a\"b\t"), Ok(()));
    assert_eq!(validate_quoted_opaque::<false, true>("a\"b\t"), Err(StunError::StringNotOpaque));
    assert_eq!(validate_quoted_opaque::<true, true>("a\"b\t"), Err(StunError::StringNotQuoted));
    assert_eq!(validate_quoted_opaque::<true, true>("a\\\tb"), Err(StunError::StringNotOpaque));
}

#[test]
fn validated_text_is_checked_by_its_kind() {
    let realm = Validated::<&str, false, true, true>::try_from("example.org").unwrap();
    assert_eq!(realm.as_str(), "example.org");
    assert_eq!(realm.as_validated_str().as_str(), "example.org");
    assert_eq!(realm.into_inner(), "example.org");
    let owned = Validated::<String, false, true, true>::try_from(String::from("example.org")).unwrap();
    assert_eq!(AsStr::as_str(&owned), "example.org");
    assert_eq!(owned.clone().into_inner(), "example.org");
    assert_eq!(realm.into_owned(), owned);
    assert_eq!(
        Validated::<&str, false, true, true>::try_from("a\"b").err(),
        Some(StunError::StringNotQuoted)
    );
    assert_eq!(
        Validated::<&str, false, false, true>::try_from("a\tb").err(),
        Some(StunError::StringNotOpaque)
    );
    assert_eq!(
        Validated::<&str, true, false, false>::try_from("1.2.3.4").err(),
        Some(StunError::InvalidDnsName)
    );
    assert!(Validated::<&str, true, false, false>::try_from("example.com").is_ok());
    let long = "a".repeat(128);
    assert_eq!(
        Validated::<&str, false, false, false>::try_from(&long[..]).err(),
        Some(StunError::StringTooLong { bytes: 128, chars: Some(128) })
    );
    // a host name may be longer than 127 characters
    let name = String::from_utf8(len_gen(253, &[63, 63, 63])).unwrap();
    assert!(Validated::<&str, true, false, false>::try_from(&name[..]).is_ok());
}

#[test]
fn validated_text_from_ascii() {
    assert!(Validated::<&str, false, true, true>::const_try_from("example.org").is_ok());
    let wide = "\u{30de}".repeat(43);
    assert_eq!(wide.len(), 129);
    assert_eq!(
        Validated::<&str, false, false, false>::const_try_from(&wide).err(),
        Some(StunError::StringTooLongConst)
    );
    assert!(Validated::<&str, false, false, false>::const_try_from("\u{30de}").is_ok());
    assert_eq!(
        Validated::<&str, false, true, false>::const_try_from("\u{30de}").err(),
        Some(StunError::StringNotQuoted)
    );
    assert_eq!(
        Validated::<&str, false, false, true>::const_try_from("\u{30de}").err(),
        Some(StunError::StringNotOpaque)
    );
    assert_eq!(
        Validated::<&str, true, true, true>::const_try_from("example..com").err(),
        Some(StunError::InvalidDnsName)
    );
}

#[test]
fn validated_text_from_bytes() {
    let v = Validated::<&str, false, false, true>::try_from_bytes(
        "\u{30de}\u{30c8}\u{30ea}\u{30c3}\u{30af}\u{30b9}".as_bytes(),
    )
    .unwrap();
    assert_eq!(v.as_str().chars().count(), 6);
    assert_eq!(
        Validated::<&str, false, false, false>::try_from_bytes(&[0xff]).err(),
        Some(StunError::Utf8Error { valid_up_to: 0, error_len: Some(1) })
    );
    assert_eq!(
        Validated::<&str, true, false, false>::try_from_bytes(&[0xff]).err(),
        Some(StunError::InvalidDnsName)
    );
    assert_eq!(
        Validated::<&str, false, true, false>::try_from_bytes(b"a\"").err(),
        Some(StunError::StringNotQuoted)
    );
}

#[test]
fn text_attributes_encode_after_a_check() {
    let id = TransactionId::default();
    let mut buf = [0xffu8; 20];
    let software = Software::new("test vector");
    assert_eq!(software.as_str(), "test vector");
    assert_eq!(software.encoded_value_len(), 11);
    assert_eq!(software.encoded_len(), 16);
    let rest = software.encode(&mut buf, &id).unwrap();
    assert_eq!(rest.len(), 4);
    assert_eq!(&buf[..16], b"\x80\x22\x00\x0btest vector\x00");
    assert_eq!(&buf[16..], &[0xff; 4]);

    let mut buf = [0xffu8; 20];
    let username = Username::new(String::from("a\tb"));
    assert_eq!(username.encode(&mut buf, &id).err(), Some(StunError::StringNotOpaque));
    assert_eq!(buf, [0xff; 20]);
    let nonce = Nonce::new("a\"b");
    assert_eq!(nonce.validate().err(), Some(StunError::StringNotQuoted));
    let domain = AlternateDomain::new("example.com");
    let checked = domain.validate().unwrap();
    assert_eq!(checked.into_inner().as_str(), "example.com");
    assert_eq!(AlternateDomain::new("1.2.3.4").encode(&mut buf, &id).err(), Some(StunError::InvalidDnsName));
    let realm = Realm::new(Validated::<&str, false, true, true>::try_from("example.org").unwrap());
    let rest = realm.encode(&mut buf, &id).unwrap();
    assert_eq!(rest.len(), 4);
    assert_eq!(&buf[..16], b"\x00\x14\x00\x0bexample.org\x00");
    assert_eq!(
        Software::new("test vector").encode(&mut buf[..15], &id).err(),
        Some(StunError::BufferTooSmallForValue { rem: 15, len: 11 })
    );
}

#[test]
fn text_attributes_decode_with_a_check() {
    let id = TransactionId::default();
    let realm = Realm::<Validated<&str, false, true, true>>::decode(
        Type::new(Type::REALM),
        b"example.org",
        &id,
    )
    .unwrap();
    assert_eq!(realm.as_str(), "example.org");
    assert_eq!(
        Realm::<Validated<&str, false, true, true>>::decode(Type::new(Type::REALM), b"a\"", &id).err(),
        Some(StunError::StringNotQuoted)
    );
    assert_eq!(
        Username::<Validated<&str, false, false, true>>::decode(Type::new(Type::USERNAME), b"a\x07", &id)
            .err(),
        Some(StunError::StringNotOpaque)
    );
    assert_eq!(
        AlternateDomain::<Validated<&str, true, false, false>>::decode(
            Type::new(Type::ALTERNATE_DOMAIN),
            b"example..com",
            &id
        )
        .err(),
        Some(StunError::InvalidDnsName)
    );
}
