//! Any attribute: one type for all the kinds that this crate knows, and for the
//! others the attribute as it is.
use crate::attribute::rfc5780::ChangeRequest;
use crate::attribute::rfc8445::{IceControlled, IceControlling, Priority, UseCandidate};
use crate::attribute::rfc8489::parsed::{
    AlternateDomain, AlternateServer, ErrorCode, Fingerprint, MappedAddress, MessageIntegrity,
    MessageIntegritySha256, Nonce, PasswordAlgorithm, PasswordAlgorithms, Realm, Software,
    UnknownAttributes, UserHash, Username, XorMappedAddress,
};
use crate::attribute::rfc8656::parsed::{Data, Lifetime, RequestedTransport};
use crate::attribute::rfc8656::{
    AdditionalAddressFamily, DontFragment, RequestedAddressFamily, XorPeerAddress,
    XorRelayedAddress,
};
use crate::attribute::string::Validated;
use crate::attribute::{Attribute, DecodeAttribute, EncodeAttribute, Type, UnknownAttribute};
use crate::error::StunError;
use crate::header::TransactionId;
use vstd::prelude::*;

verus! {

/// An error code about an address family, as it comes out of a message.
pub type AddressErrorCode<'a> = crate::attribute::error_code::AddressErrorCode<
    Validated<&'a str, false, false, false>,
>;

/// An attribute of any kind, as it comes out of a message.
#[derive(Debug, PartialEq, Eq)]
pub enum AnyAttribute<'a> {
    MappedAddress(MappedAddress),
    ChangeRequest(ChangeRequest),
    Username(Username<'a>),
    MessageIntegrity(MessageIntegrity<'a>),
    ErrorCode(ErrorCode<'a>),
    UnknownAttributes(UnknownAttributes<'a>),
    Lifetime(Lifetime),
    XorPeerAddress(XorPeerAddress),
    Data(Data<'a>),
    Realm(Realm<'a>),
    Nonce(Nonce<'a>),
    XorRelayedAddress(XorRelayedAddress),
    RequestedAddressFamily(RequestedAddressFamily),
    RequestedTransport(RequestedTransport),
    DontFragment(DontFragment),
    MessageIntegritySha256(MessageIntegritySha256<'a>),
    PasswordAlgorithm(PasswordAlgorithm<'a>),
    UserHash(UserHash<'a>),
    XorMappedAddress(XorMappedAddress),
    Priority(Priority),
    UseCandidate(UseCandidate),
    AdditionalAddressFamily(AdditionalAddressFamily),
    AddressErrorCode(AddressErrorCode<'a>),
    PasswordAlgorithms(PasswordAlgorithms<'a>),
    AlternateDomain(AlternateDomain<'a>),
    Software(Software<'a>),
    AlternateServer(AlternateServer),
    Fingerprint(Fingerprint),
    IceControlled(IceControlled),
    IceControlling(IceControlling),
    /// An attribute of a type that this crate does not know.
    UnknownAttribute(UnknownAttribute<'a>),
}

/// Whether this crate knows the type.
pub open spec fn is_known(attr: Type) -> bool {
    ||| attr.0 == Type::MAPPED_ADDRESS
    ||| attr.0 == Type::CHANGE_REQUEST
    ||| attr.0 == Type::USERNAME
    ||| attr.0 == Type::MESSAGE_INTEGRITY
    ||| attr.0 == Type::ERROR_CODE
    ||| attr.0 == Type::UNKNOWN_ATTRIBUTES
    ||| attr.0 == Type::LIFETIME
    ||| attr.0 == Type::XOR_PEER_ADDRESS
    ||| attr.0 == Type::DATA
    ||| attr.0 == Type::REALM
    ||| attr.0 == Type::NONCE
    ||| attr.0 == Type::XOR_RELAYED_ADDRESS
    ||| attr.0 == Type::REQUESTED_ADDRESS_FAMILY
    ||| attr.0 == Type::REQUESTED_TRANSPORT
    ||| attr.0 == Type::DONT_FRAGMENT
    ||| attr.0 == Type::MESSAGE_INTEGRITY_SHA256
    ||| attr.0 == Type::PASSWORD_ALGORITHM
    ||| attr.0 == Type::USERHASH
    ||| attr.0 == Type::XOR_MAPPED_ADDRESS
    ||| attr.0 == Type::PRIORITY
    ||| attr.0 == Type::USE_CANDIDATE
    ||| attr.0 == Type::ADDITIONAL_ADDRESS_FAMILY
    ||| attr.0 == Type::ADDRESS_ERROR_CODE
    ||| attr.0 == Type::PASSWORD_ALGORITHMS
    ||| attr.0 == Type::ALTERNATE_DOMAIN
    ||| attr.0 == Type::SOFTWARE
    ||| attr.0 == Type::ALTERNATE_SERVER
    ||| attr.0 == Type::FINGERPRINT
    ||| attr.0 == Type::ICE_CONTROLLED
    ||| attr.0 == Type::ICE_CONTROLLING
}

impl<'a> Attribute for AnyAttribute<'a> {
    open spec fn spec_type(&self) -> Type {
        match self {
            AnyAttribute::MappedAddress(a) => a.spec_type(),
            AnyAttribute::ChangeRequest(a) => a.spec_type(),
            AnyAttribute::Username(a) => a.spec_type(),
            AnyAttribute::MessageIntegrity(a) => a.spec_type(),
            AnyAttribute::ErrorCode(a) => a.spec_type(),
            AnyAttribute::UnknownAttributes(a) => a.spec_type(),
            AnyAttribute::Lifetime(a) => a.spec_type(),
            AnyAttribute::XorPeerAddress(a) => a.spec_type(),
            AnyAttribute::Data(a) => a.spec_type(),
            AnyAttribute::Realm(a) => a.spec_type(),
            AnyAttribute::Nonce(a) => a.spec_type(),
            AnyAttribute::XorRelayedAddress(a) => a.spec_type(),
            AnyAttribute::RequestedAddressFamily(a) => a.spec_type(),
            AnyAttribute::RequestedTransport(a) => a.spec_type(),
            AnyAttribute::DontFragment(a) => a.spec_type(),
            AnyAttribute::MessageIntegritySha256(a) => a.spec_type(),
            AnyAttribute::PasswordAlgorithm(a) => a.spec_type(),
            AnyAttribute::UserHash(a) => a.spec_type(),
            AnyAttribute::XorMappedAddress(a) => a.spec_type(),
            AnyAttribute::Priority(a) => a.spec_type(),
            AnyAttribute::UseCandidate(a) => a.spec_type(),
            AnyAttribute::AdditionalAddressFamily(a) => a.spec_type(),
            AnyAttribute::AddressErrorCode(a) => a.spec_type(),
            AnyAttribute::PasswordAlgorithms(a) => a.spec_type(),
            AnyAttribute::AlternateDomain(a) => a.spec_type(),
            AnyAttribute::Software(a) => a.spec_type(),
            AnyAttribute::AlternateServer(a) => a.spec_type(),
            AnyAttribute::Fingerprint(a) => a.spec_type(),
            AnyAttribute::IceControlled(a) => a.spec_type(),
            AnyAttribute::IceControlling(a) => a.spec_type(),
            AnyAttribute::UnknownAttribute(a) => a.spec_type(),
        }
    }

    fn attribute_type(&self) -> (t: Type) {
        match self {
            AnyAttribute::MappedAddress(a) => a.attribute_type(),
            AnyAttribute::ChangeRequest(a) => a.attribute_type(),
            AnyAttribute::Username(a) => a.attribute_type(),
            AnyAttribute::MessageIntegrity(a) => a.attribute_type(),
            AnyAttribute::ErrorCode(a) => a.attribute_type(),
            AnyAttribute::UnknownAttributes(a) => a.attribute_type(),
            AnyAttribute::Lifetime(a) => a.attribute_type(),
            AnyAttribute::XorPeerAddress(a) => a.attribute_type(),
            AnyAttribute::Data(a) => a.attribute_type(),
            AnyAttribute::Realm(a) => a.attribute_type(),
            AnyAttribute::Nonce(a) => a.attribute_type(),
            AnyAttribute::XorRelayedAddress(a) => a.attribute_type(),
            AnyAttribute::RequestedAddressFamily(a) => a.attribute_type(),
            AnyAttribute::RequestedTransport(a) => a.attribute_type(),
            AnyAttribute::DontFragment(a) => a.attribute_type(),
            AnyAttribute::MessageIntegritySha256(a) => a.attribute_type(),
            AnyAttribute::PasswordAlgorithm(a) => a.attribute_type(),
            AnyAttribute::UserHash(a) => a.attribute_type(),
            AnyAttribute::XorMappedAddress(a) => a.attribute_type(),
            AnyAttribute::Priority(a) => a.attribute_type(),
            AnyAttribute::UseCandidate(a) => a.attribute_type(),
            AnyAttribute::AdditionalAddressFamily(a) => a.attribute_type(),
            AnyAttribute::AddressErrorCode(a) => a.attribute_type(),
            AnyAttribute::PasswordAlgorithms(a) => a.attribute_type(),
            AnyAttribute::AlternateDomain(a) => a.attribute_type(),
            AnyAttribute::Software(a) => a.attribute_type(),
            AnyAttribute::AlternateServer(a) => a.attribute_type(),
            AnyAttribute::Fingerprint(a) => a.attribute_type(),
            AnyAttribute::IceControlled(a) => a.attribute_type(),
            AnyAttribute::IceControlling(a) => a.attribute_type(),
            AnyAttribute::UnknownAttribute(a) => a.attribute_type(),
        }
    }
}

impl<'b> EncodeAttribute for AnyAttribute<'b> {
    open spec fn wire_value(&self, transaction_id: TransactionId) -> Seq<u8> {
        match self {
            AnyAttribute::MappedAddress(a) => a.wire_value(transaction_id),
            AnyAttribute::ChangeRequest(a) => a.wire_value(transaction_id),
            AnyAttribute::Username(a) => a.wire_value(transaction_id),
            AnyAttribute::MessageIntegrity(a) => a.wire_value(transaction_id),
            AnyAttribute::ErrorCode(a) => a.wire_value(transaction_id),
            AnyAttribute::UnknownAttributes(a) => a.wire_value(transaction_id),
            AnyAttribute::Lifetime(a) => a.wire_value(transaction_id),
            AnyAttribute::XorPeerAddress(a) => a.wire_value(transaction_id),
            AnyAttribute::Data(a) => a.wire_value(transaction_id),
            AnyAttribute::Realm(a) => a.wire_value(transaction_id),
            AnyAttribute::Nonce(a) => a.wire_value(transaction_id),
            AnyAttribute::XorRelayedAddress(a) => a.wire_value(transaction_id),
            AnyAttribute::RequestedAddressFamily(a) => a.wire_value(transaction_id),
            AnyAttribute::RequestedTransport(a) => a.wire_value(transaction_id),
            AnyAttribute::DontFragment(a) => a.wire_value(transaction_id),
            AnyAttribute::MessageIntegritySha256(a) => a.wire_value(transaction_id),
            AnyAttribute::PasswordAlgorithm(a) => a.wire_value(transaction_id),
            AnyAttribute::UserHash(a) => a.wire_value(transaction_id),
            AnyAttribute::XorMappedAddress(a) => a.wire_value(transaction_id),
            AnyAttribute::Priority(a) => a.wire_value(transaction_id),
            AnyAttribute::UseCandidate(a) => a.wire_value(transaction_id),
            AnyAttribute::AdditionalAddressFamily(a) => a.wire_value(transaction_id),
            AnyAttribute::AddressErrorCode(a) => a.wire_value(transaction_id),
            AnyAttribute::PasswordAlgorithms(a) => a.wire_value(transaction_id),
            AnyAttribute::AlternateDomain(a) => a.wire_value(transaction_id),
            AnyAttribute::Software(a) => a.wire_value(transaction_id),
            AnyAttribute::AlternateServer(a) => a.wire_value(transaction_id),
            AnyAttribute::Fingerprint(a) => a.wire_value(transaction_id),
            AnyAttribute::IceControlled(a) => a.wire_value(transaction_id),
            AnyAttribute::IceControlling(a) => a.wire_value(transaction_id),
            AnyAttribute::UnknownAttribute(a) => a.wire_value(transaction_id),
        }
    }

    open spec fn fault(&self, avail: nat) -> Option<StunError> {
        match self {
            AnyAttribute::MappedAddress(a) => a.fault(avail),
            AnyAttribute::ChangeRequest(a) => a.fault(avail),
            AnyAttribute::Username(a) => a.fault(avail),
            AnyAttribute::MessageIntegrity(a) => a.fault(avail),
            AnyAttribute::ErrorCode(a) => a.fault(avail),
            AnyAttribute::UnknownAttributes(a) => a.fault(avail),
            AnyAttribute::Lifetime(a) => a.fault(avail),
            AnyAttribute::XorPeerAddress(a) => a.fault(avail),
            AnyAttribute::Data(a) => a.fault(avail),
            AnyAttribute::Realm(a) => a.fault(avail),
            AnyAttribute::Nonce(a) => a.fault(avail),
            AnyAttribute::XorRelayedAddress(a) => a.fault(avail),
            AnyAttribute::RequestedAddressFamily(a) => a.fault(avail),
            AnyAttribute::RequestedTransport(a) => a.fault(avail),
            AnyAttribute::DontFragment(a) => a.fault(avail),
            AnyAttribute::MessageIntegritySha256(a) => a.fault(avail),
            AnyAttribute::PasswordAlgorithm(a) => a.fault(avail),
            AnyAttribute::UserHash(a) => a.fault(avail),
            AnyAttribute::XorMappedAddress(a) => a.fault(avail),
            AnyAttribute::Priority(a) => a.fault(avail),
            AnyAttribute::UseCandidate(a) => a.fault(avail),
            AnyAttribute::AdditionalAddressFamily(a) => a.fault(avail),
            AnyAttribute::AddressErrorCode(a) => a.fault(avail),
            AnyAttribute::PasswordAlgorithms(a) => a.fault(avail),
            AnyAttribute::AlternateDomain(a) => a.fault(avail),
            AnyAttribute::Software(a) => a.fault(avail),
            AnyAttribute::AlternateServer(a) => a.fault(avail),
            AnyAttribute::Fingerprint(a) => a.fault(avail),
            AnyAttribute::IceControlled(a) => a.fault(avail),
            AnyAttribute::IceControlling(a) => a.fault(avail),
            AnyAttribute::UnknownAttribute(a) => a.fault(avail),
        }
    }

    fn encoded_value_len(&self) -> (len: u16) {
        match self {
            AnyAttribute::MappedAddress(a) => a.encoded_value_len(),
            AnyAttribute::ChangeRequest(a) => a.encoded_value_len(),
            AnyAttribute::Username(a) => a.encoded_value_len(),
            AnyAttribute::MessageIntegrity(a) => a.encoded_value_len(),
            AnyAttribute::ErrorCode(a) => a.encoded_value_len(),
            AnyAttribute::UnknownAttributes(a) => a.encoded_value_len(),
            AnyAttribute::Lifetime(a) => a.encoded_value_len(),
            AnyAttribute::XorPeerAddress(a) => a.encoded_value_len(),
            AnyAttribute::Data(a) => a.encoded_value_len(),
            AnyAttribute::Realm(a) => a.encoded_value_len(),
            AnyAttribute::Nonce(a) => a.encoded_value_len(),
            AnyAttribute::XorRelayedAddress(a) => a.encoded_value_len(),
            AnyAttribute::RequestedAddressFamily(a) => a.encoded_value_len(),
            AnyAttribute::RequestedTransport(a) => a.encoded_value_len(),
            AnyAttribute::DontFragment(a) => a.encoded_value_len(),
            AnyAttribute::MessageIntegritySha256(a) => a.encoded_value_len(),
            AnyAttribute::PasswordAlgorithm(a) => a.encoded_value_len(),
            AnyAttribute::UserHash(a) => a.encoded_value_len(),
            AnyAttribute::XorMappedAddress(a) => a.encoded_value_len(),
            AnyAttribute::Priority(a) => a.encoded_value_len(),
            AnyAttribute::UseCandidate(a) => a.encoded_value_len(),
            AnyAttribute::AdditionalAddressFamily(a) => a.encoded_value_len(),
            AnyAttribute::AddressErrorCode(a) => a.encoded_value_len(),
            AnyAttribute::PasswordAlgorithms(a) => a.encoded_value_len(),
            AnyAttribute::AlternateDomain(a) => a.encoded_value_len(),
            AnyAttribute::Software(a) => a.encoded_value_len(),
            AnyAttribute::AlternateServer(a) => a.encoded_value_len(),
            AnyAttribute::Fingerprint(a) => a.encoded_value_len(),
            AnyAttribute::IceControlled(a) => a.encoded_value_len(),
            AnyAttribute::IceControlling(a) => a.encoded_value_len(),
            AnyAttribute::UnknownAttribute(a) => a.encoded_value_len(),
        }
    }

    fn encode<'a>(&self, dst: &'a mut [u8], transaction_id: &TransactionId) -> (r: Result<
        &'a mut [u8],
        StunError,
    >) {
        match self {
            AnyAttribute::MappedAddress(a) => a.encode(dst, transaction_id),
            AnyAttribute::ChangeRequest(a) => a.encode(dst, transaction_id),
            AnyAttribute::Username(a) => a.encode(dst, transaction_id),
            AnyAttribute::MessageIntegrity(a) => a.encode(dst, transaction_id),
            AnyAttribute::ErrorCode(a) => a.encode(dst, transaction_id),
            AnyAttribute::UnknownAttributes(a) => a.encode(dst, transaction_id),
            AnyAttribute::Lifetime(a) => a.encode(dst, transaction_id),
            AnyAttribute::XorPeerAddress(a) => a.encode(dst, transaction_id),
            AnyAttribute::Data(a) => a.encode(dst, transaction_id),
            AnyAttribute::Realm(a) => a.encode(dst, transaction_id),
            AnyAttribute::Nonce(a) => a.encode(dst, transaction_id),
            AnyAttribute::XorRelayedAddress(a) => a.encode(dst, transaction_id),
            AnyAttribute::RequestedAddressFamily(a) => a.encode(dst, transaction_id),
            AnyAttribute::RequestedTransport(a) => a.encode(dst, transaction_id),
            AnyAttribute::DontFragment(a) => a.encode(dst, transaction_id),
            AnyAttribute::MessageIntegritySha256(a) => a.encode(dst, transaction_id),
            AnyAttribute::PasswordAlgorithm(a) => a.encode(dst, transaction_id),
            AnyAttribute::UserHash(a) => a.encode(dst, transaction_id),
            AnyAttribute::XorMappedAddress(a) => a.encode(dst, transaction_id),
            AnyAttribute::Priority(a) => a.encode(dst, transaction_id),
            AnyAttribute::UseCandidate(a) => a.encode(dst, transaction_id),
            AnyAttribute::AdditionalAddressFamily(a) => a.encode(dst, transaction_id),
            AnyAttribute::AddressErrorCode(a) => a.encode(dst, transaction_id),
            AnyAttribute::PasswordAlgorithms(a) => a.encode(dst, transaction_id),
            AnyAttribute::AlternateDomain(a) => a.encode(dst, transaction_id),
            AnyAttribute::Software(a) => a.encode(dst, transaction_id),
            AnyAttribute::AlternateServer(a) => a.encode(dst, transaction_id),
            AnyAttribute::Fingerprint(a) => a.encode(dst, transaction_id),
            AnyAttribute::IceControlled(a) => a.encode(dst, transaction_id),
            AnyAttribute::IceControlling(a) => a.encode(dst, transaction_id),
            AnyAttribute::UnknownAttribute(a) => a.encode(dst, transaction_id),
        }
    }
}

impl<'d> DecodeAttribute<'d> for AnyAttribute<'d> {
    /// The type says which kind decodes the value; a type that is not known leaves
    /// the attribute as it is.
    open spec fn decoded(attr: Type, src: Seq<u8>, transaction_id: TransactionId, r: Result<
        Self,
        StunError,
    >) -> bool {
        if attr.0 == Type::MAPPED_ADDRESS {
            match r {
                Ok(AnyAttribute::MappedAddress(a)) => <MappedAddress>::decoded(attr, src, transaction_id, Ok(a)),
                Ok(_) => false,
                Err(e) => <MappedAddress>::decoded(attr, src, transaction_id, Err(e)),
            }
        } else if attr.0 == Type::CHANGE_REQUEST {
            match r {
                Ok(AnyAttribute::ChangeRequest(a)) => <ChangeRequest>::decoded(attr, src, transaction_id, Ok(a)),
                Ok(_) => false,
                Err(e) => <ChangeRequest>::decoded(attr, src, transaction_id, Err(e)),
            }
        } else if attr.0 == Type::USERNAME {
            match r {
                Ok(AnyAttribute::Username(a)) => <Username<'d>>::decoded(attr, src, transaction_id, Ok(a)),
                Ok(_) => false,
                Err(e) => <Username<'d>>::decoded(attr, src, transaction_id, Err(e)),
            }
        } else if attr.0 == Type::MESSAGE_INTEGRITY {
            match r {
                Ok(AnyAttribute::MessageIntegrity(a)) => <MessageIntegrity<'d>>::decoded(attr, src, transaction_id, Ok(a)),
                Ok(_) => false,
                Err(e) => <MessageIntegrity<'d>>::decoded(attr, src, transaction_id, Err(e)),
            }
        } else if attr.0 == Type::ERROR_CODE {
            match r {
                Ok(AnyAttribute::ErrorCode(a)) => <ErrorCode<'d>>::decoded(attr, src, transaction_id, Ok(a)),
                Ok(_) => false,
                Err(e) => <ErrorCode<'d>>::decoded(attr, src, transaction_id, Err(e)),
            }
        } else if attr.0 == Type::UNKNOWN_ATTRIBUTES {
            match r {
                Ok(AnyAttribute::UnknownAttributes(a)) => <UnknownAttributes<'d>>::decoded(attr, src, transaction_id, Ok(a)),
                Ok(_) => false,
                Err(e) => <UnknownAttributes<'d>>::decoded(attr, src, transaction_id, Err(e)),
            }
        } else if attr.0 == Type::LIFETIME {
            match r {
                Ok(AnyAttribute::Lifetime(a)) => <Lifetime>::decoded(attr, src, transaction_id, Ok(a)),
                Ok(_) => false,
                Err(e) => <Lifetime>::decoded(attr, src, transaction_id, Err(e)),
            }
        } else if attr.0 == Type::XOR_PEER_ADDRESS {
            match r {
                Ok(AnyAttribute::XorPeerAddress(a)) => <XorPeerAddress>::decoded(attr, src, transaction_id, Ok(a)),
                Ok(_) => false,
                Err(e) => <XorPeerAddress>::decoded(attr, src, transaction_id, Err(e)),
            }
        } else if attr.0 == Type::DATA {
            match r {
                Ok(AnyAttribute::Data(a)) => <Data<'d>>::decoded(attr, src, transaction_id, Ok(a)),
                Ok(_) => false,
                Err(e) => <Data<'d>>::decoded(attr, src, transaction_id, Err(e)),
            }
        } else if attr.0 == Type::REALM {
            match r {
                Ok(AnyAttribute::Realm(a)) => <Realm<'d>>::decoded(attr, src, transaction_id, Ok(a)),
                Ok(_) => false,
                Err(e) => <Realm<'d>>::decoded(attr, src, transaction_id, Err(e)),
            }
        } else if attr.0 == Type::NONCE {
            match r {
                Ok(AnyAttribute::Nonce(a)) => <Nonce<'d>>::decoded(attr, src, transaction_id, Ok(a)),
                Ok(_) => false,
                Err(e) => <Nonce<'d>>::decoded(attr, src, transaction_id, Err(e)),
            }
        } else if attr.0 == Type::XOR_RELAYED_ADDRESS {
            match r {
                Ok(AnyAttribute::XorRelayedAddress(a)) => <XorRelayedAddress>::decoded(attr, src, transaction_id, Ok(a)),
                Ok(_) => false,
                Err(e) => <XorRelayedAddress>::decoded(attr, src, transaction_id, Err(e)),
            }
        } else if attr.0 == Type::REQUESTED_ADDRESS_FAMILY {
            match r {
                Ok(AnyAttribute::RequestedAddressFamily(a)) => <RequestedAddressFamily>::decoded(attr, src, transaction_id, Ok(a)),
                Ok(_) => false,
                Err(e) => <RequestedAddressFamily>::decoded(attr, src, transaction_id, Err(e)),
            }
        } else if attr.0 == Type::REQUESTED_TRANSPORT {
            match r {
                Ok(AnyAttribute::RequestedTransport(a)) => <RequestedTransport>::decoded(attr, src, transaction_id, Ok(a)),
                Ok(_) => false,
                Err(e) => <RequestedTransport>::decoded(attr, src, transaction_id, Err(e)),
            }
        } else if attr.0 == Type::DONT_FRAGMENT {
            match r {
                Ok(AnyAttribute::DontFragment(a)) => <DontFragment>::decoded(attr, src, transaction_id, Ok(a)),
                Ok(_) => false,
                Err(e) => <DontFragment>::decoded(attr, src, transaction_id, Err(e)),
            }
        } else if attr.0 == Type::MESSAGE_INTEGRITY_SHA256 {
            match r {
                Ok(AnyAttribute::MessageIntegritySha256(a)) => <MessageIntegritySha256<'d>>::decoded(attr, src, transaction_id, Ok(a)),
                Ok(_) => false,
                Err(e) => <MessageIntegritySha256<'d>>::decoded(attr, src, transaction_id, Err(e)),
            }
        } else if attr.0 == Type::PASSWORD_ALGORITHM {
            match r {
                Ok(AnyAttribute::PasswordAlgorithm(a)) => <PasswordAlgorithm<'d>>::decoded(attr, src, transaction_id, Ok(a)),
                Ok(_) => false,
                Err(e) => <PasswordAlgorithm<'d>>::decoded(attr, src, transaction_id, Err(e)),
            }
        } else if attr.0 == Type::USERHASH {
            match r {
                Ok(AnyAttribute::UserHash(a)) => <UserHash<'d>>::decoded(attr, src, transaction_id, Ok(a)),
                Ok(_) => false,
                Err(e) => <UserHash<'d>>::decoded(attr, src, transaction_id, Err(e)),
            }
        } else if attr.0 == Type::XOR_MAPPED_ADDRESS {
            match r {
                Ok(AnyAttribute::XorMappedAddress(a)) => <XorMappedAddress>::decoded(attr, src, transaction_id, Ok(a)),
                Ok(_) => false,
                Err(e) => <XorMappedAddress>::decoded(attr, src, transaction_id, Err(e)),
            }
        } else if attr.0 == Type::PRIORITY {
            match r {
                Ok(AnyAttribute::Priority(a)) => <Priority>::decoded(attr, src, transaction_id, Ok(a)),
                Ok(_) => false,
                Err(e) => <Priority>::decoded(attr, src, transaction_id, Err(e)),
            }
        } else if attr.0 == Type::USE_CANDIDATE {
            match r {
                Ok(AnyAttribute::UseCandidate(a)) => <UseCandidate>::decoded(attr, src, transaction_id, Ok(a)),
                Ok(_) => false,
                Err(e) => <UseCandidate>::decoded(attr, src, transaction_id, Err(e)),
            }
        } else if attr.0 == Type::ADDITIONAL_ADDRESS_FAMILY {
            match r {
                Ok(AnyAttribute::AdditionalAddressFamily(a)) => <AdditionalAddressFamily>::decoded(attr, src, transaction_id, Ok(a)),
                Ok(_) => false,
                Err(e) => <AdditionalAddressFamily>::decoded(attr, src, transaction_id, Err(e)),
            }
        } else if attr.0 == Type::ADDRESS_ERROR_CODE {
            match r {
                Ok(AnyAttribute::AddressErrorCode(a)) => <AddressErrorCode<'d>>::decoded(attr, src, transaction_id, Ok(a)),
                Ok(_) => false,
                Err(e) => <AddressErrorCode<'d>>::decoded(attr, src, transaction_id, Err(e)),
            }
        } else if attr.0 == Type::PASSWORD_ALGORITHMS {
            match r {
                Ok(AnyAttribute::PasswordAlgorithms(a)) => <PasswordAlgorithms<'d>>::decoded(attr, src, transaction_id, Ok(a)),
                Ok(_) => false,
                Err(e) => <PasswordAlgorithms<'d>>::decoded(attr, src, transaction_id, Err(e)),
            }
        } else if attr.0 == Type::ALTERNATE_DOMAIN {
            match r {
                Ok(AnyAttribute::AlternateDomain(a)) => <AlternateDomain<'d>>::decoded(attr, src, transaction_id, Ok(a)),
                Ok(_) => false,
                Err(e) => <AlternateDomain<'d>>::decoded(attr, src, transaction_id, Err(e)),
            }
        } else if attr.0 == Type::SOFTWARE {
            match r {
                Ok(AnyAttribute::Software(a)) => <Software<'d>>::decoded(attr, src, transaction_id, Ok(a)),
                Ok(_) => false,
                Err(e) => <Software<'d>>::decoded(attr, src, transaction_id, Err(e)),
            }
        } else if attr.0 == Type::ALTERNATE_SERVER {
            match r {
                Ok(AnyAttribute::AlternateServer(a)) => <AlternateServer>::decoded(attr, src, transaction_id, Ok(a)),
                Ok(_) => false,
                Err(e) => <AlternateServer>::decoded(attr, src, transaction_id, Err(e)),
            }
        } else if attr.0 == Type::FINGERPRINT {
            match r {
                Ok(AnyAttribute::Fingerprint(a)) => <Fingerprint>::decoded(attr, src, transaction_id, Ok(a)),
                Ok(_) => false,
                Err(e) => <Fingerprint>::decoded(attr, src, transaction_id, Err(e)),
            }
        } else if attr.0 == Type::ICE_CONTROLLED {
            match r {
                Ok(AnyAttribute::IceControlled(a)) => <IceControlled>::decoded(attr, src, transaction_id, Ok(a)),
                Ok(_) => false,
                Err(e) => <IceControlled>::decoded(attr, src, transaction_id, Err(e)),
            }
        } else if attr.0 == Type::ICE_CONTROLLING {
            match r {
                Ok(AnyAttribute::IceControlling(a)) => <IceControlling>::decoded(attr, src, transaction_id, Ok(a)),
                Ok(_) => false,
                Err(e) => <IceControlling>::decoded(attr, src, transaction_id, Err(e)),
            }
        } else {
            match r {
                Ok(AnyAttribute::UnknownAttribute(a)) => UnknownAttribute::decoded(
                    attr,
                    src,
                    transaction_id,
                    Ok(a),
                ),
                Ok(_) => false,
                Err(e) => UnknownAttribute::decoded(attr, src, transaction_id, Err(e)),
            }
        }
    }

    fn decode(attr: Type, src: &'d [u8], transaction_id: &TransactionId) -> (r: Result<
        Self,
        StunError,
    >) {
        let code = attr.codepoint();
        if code == Type::MAPPED_ADDRESS {
            match <MappedAddress>::decode(attr, src, transaction_id) {
                Ok(a) => Ok(AnyAttribute::MappedAddress(a)),
                Err(e) => Err(e),
            }
        } else if code == Type::CHANGE_REQUEST {
            match <ChangeRequest>::decode(attr, src, transaction_id) {
                Ok(a) => Ok(AnyAttribute::ChangeRequest(a)),
                Err(e) => Err(e),
            }
        } else if code == Type::USERNAME {
            match <Username<'d>>::decode(attr, src, transaction_id) {
                Ok(a) => Ok(AnyAttribute::Username(a)),
                Err(e) => Err(e),
            }
        } else if code == Type::MESSAGE_INTEGRITY {
            match <MessageIntegrity<'d>>::decode(attr, src, transaction_id) {
                Ok(a) => Ok(AnyAttribute::MessageIntegrity(a)),
                Err(e) => Err(e),
            }
        } else if code == Type::ERROR_CODE {
            match <ErrorCode<'d>>::decode(attr, src, transaction_id) {
                Ok(a) => Ok(AnyAttribute::ErrorCode(a)),
                Err(e) => Err(e),
            }
        } else if code == Type::UNKNOWN_ATTRIBUTES {
            match <UnknownAttributes<'d>>::decode(attr, src, transaction_id) {
                Ok(a) => Ok(AnyAttribute::UnknownAttributes(a)),
                Err(e) => Err(e),
            }
        } else if code == Type::LIFETIME {
            match <Lifetime>::decode(attr, src, transaction_id) {
                Ok(a) => Ok(AnyAttribute::Lifetime(a)),
                Err(e) => Err(e),
            }
        } else if code == Type::XOR_PEER_ADDRESS {
            match <XorPeerAddress>::decode(attr, src, transaction_id) {
                Ok(a) => Ok(AnyAttribute::XorPeerAddress(a)),
                Err(e) => Err(e),
            }
        } else if code == Type::DATA {
            match <Data<'d>>::decode(attr, src, transaction_id) {
                Ok(a) => Ok(AnyAttribute::Data(a)),
                Err(e) => Err(e),
            }
        } else if code == Type::REALM {
            match <Realm<'d>>::decode(attr, src, transaction_id) {
                Ok(a) => Ok(AnyAttribute::Realm(a)),
                Err(e) => Err(e),
            }
        } else if code == Type::NONCE {
            match <Nonce<'d>>::decode(attr, src, transaction_id) {
                Ok(a) => Ok(AnyAttribute::Nonce(a)),
                Err(e) => Err(e),
            }
        } else if code == Type::XOR_RELAYED_ADDRESS {
            match <XorRelayedAddress>::decode(attr, src, transaction_id) {
                Ok(a) => Ok(AnyAttribute::XorRelayedAddress(a)),
                Err(e) => Err(e),
            }
        } else if code == Type::REQUESTED_ADDRESS_FAMILY {
            match <RequestedAddressFamily>::decode(attr, src, transaction_id) {
                Ok(a) => Ok(AnyAttribute::RequestedAddressFamily(a)),
                Err(e) => Err(e),
            }
        } else if code == Type::REQUESTED_TRANSPORT {
            match <RequestedTransport>::decode(attr, src, transaction_id) {
                Ok(a) => Ok(AnyAttribute::RequestedTransport(a)),
                Err(e) => Err(e),
            }
        } else if code == Type::DONT_FRAGMENT {
            match <DontFragment>::decode(attr, src, transaction_id) {
                Ok(a) => Ok(AnyAttribute::DontFragment(a)),
                Err(e) => Err(e),
            }
        } else if code == Type::MESSAGE_INTEGRITY_SHA256 {
            match <MessageIntegritySha256<'d>>::decode(attr, src, transaction_id) {
                Ok(a) => Ok(AnyAttribute::MessageIntegritySha256(a)),
                Err(e) => Err(e),
            }
        } else if code == Type::PASSWORD_ALGORITHM {
            match <PasswordAlgorithm<'d>>::decode(attr, src, transaction_id) {
                Ok(a) => Ok(AnyAttribute::PasswordAlgorithm(a)),
                Err(e) => Err(e),
            }
        } else if code == Type::USERHASH {
            match <UserHash<'d>>::decode(attr, src, transaction_id) {
                Ok(a) => Ok(AnyAttribute::UserHash(a)),
                Err(e) => Err(e),
            }
        } else if code == Type::XOR_MAPPED_ADDRESS {
            match <XorMappedAddress>::decode(attr, src, transaction_id) {
                Ok(a) => Ok(AnyAttribute::XorMappedAddress(a)),
                Err(e) => Err(e),
            }
        } else if code == Type::PRIORITY {
            match <Priority>::decode(attr, src, transaction_id) {
                Ok(a) => Ok(AnyAttribute::Priority(a)),
                Err(e) => Err(e),
            }
        } else if code == Type::USE_CANDIDATE {
            match <UseCandidate>::decode(attr, src, transaction_id) {
                Ok(a) => Ok(AnyAttribute::UseCandidate(a)),
                Err(e) => Err(e),
            }
        } else if code == Type::ADDITIONAL_ADDRESS_FAMILY {
            match <AdditionalAddressFamily>::decode(attr, src, transaction_id) {
                Ok(a) => Ok(AnyAttribute::AdditionalAddressFamily(a)),
                Err(e) => Err(e),
            }
        } else if code == Type::ADDRESS_ERROR_CODE {
            match <AddressErrorCode<'d>>::decode(attr, src, transaction_id) {
                Ok(a) => Ok(AnyAttribute::AddressErrorCode(a)),
                Err(e) => Err(e),
            }
        } else if code == Type::PASSWORD_ALGORITHMS {
            match <PasswordAlgorithms<'d>>::decode(attr, src, transaction_id) {
                Ok(a) => Ok(AnyAttribute::PasswordAlgorithms(a)),
                Err(e) => Err(e),
            }
        } else if code == Type::ALTERNATE_DOMAIN {
            match <AlternateDomain<'d>>::decode(attr, src, transaction_id) {
                Ok(a) => Ok(AnyAttribute::AlternateDomain(a)),
                Err(e) => Err(e),
            }
        } else if code == Type::SOFTWARE {
            match <Software<'d>>::decode(attr, src, transaction_id) {
                Ok(a) => Ok(AnyAttribute::Software(a)),
                Err(e) => Err(e),
            }
        } else if code == Type::ALTERNATE_SERVER {
            match <AlternateServer>::decode(attr, src, transaction_id) {
                Ok(a) => Ok(AnyAttribute::AlternateServer(a)),
                Err(e) => Err(e),
            }
        } else if code == Type::FINGERPRINT {
            match <Fingerprint>::decode(attr, src, transaction_id) {
                Ok(a) => Ok(AnyAttribute::Fingerprint(a)),
                Err(e) => Err(e),
            }
        } else if code == Type::ICE_CONTROLLED {
            match <IceControlled>::decode(attr, src, transaction_id) {
                Ok(a) => Ok(AnyAttribute::IceControlled(a)),
                Err(e) => Err(e),
            }
        } else if code == Type::ICE_CONTROLLING {
            match <IceControlling>::decode(attr, src, transaction_id) {
                Ok(a) => Ok(AnyAttribute::IceControlling(a)),
                Err(e) => Err(e),
            }
        } else {
            match UnknownAttribute::decode(attr, src, transaction_id) {
                Ok(a) => Ok(AnyAttribute::UnknownAttribute(a)),
                Err(e) => Err(e),
            }
        }
    }
}

} // verus!
