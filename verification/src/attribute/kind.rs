//! Attribute type codepoints.
use vstd::prelude::*;

verus! {

/// The 16-bit codepoint that says what an attribute is.
#[derive(Debug, Clone, Copy, PartialOrd, Ord, PartialEq, Eq, Hash, Structural)]
pub struct Type(pub u16);

impl Type {
    /// The number of bytes a type takes on the wire.
    pub const LEN: usize = 2;

    pub const MAPPED_ADDRESS: u16 = 0x0001;
    pub const CHANGE_REQUEST: u16 = 0x0003;
    pub const USERNAME: u16 = 0x0006;
    pub const MESSAGE_INTEGRITY: u16 = 0x0008;
    pub const ERROR_CODE: u16 = 0x0009;
    pub const UNKNOWN_ATTRIBUTES: u16 = 0x000A;
    pub const CHANNEL_NUMBER: u16 = 0x000C;
    pub const LIFETIME: u16 = 0x000D;
    pub const XOR_PEER_ADDRESS: u16 = 0x0012;
    pub const DATA: u16 = 0x0013;
    pub const REALM: u16 = 0x0014;
    pub const NONCE: u16 = 0x0015;
    pub const XOR_RELAYED_ADDRESS: u16 = 0x0016;
    pub const REQUESTED_ADDRESS_FAMILY: u16 = 0x0017;
    pub const EVEN_PORT: u16 = 0x0018;
    pub const REQUESTED_TRANSPORT: u16 = 0x0019;
    pub const DONT_FRAGMENT: u16 = 0x001A;
    pub const ACCESS_TOKEN: u16 = 0x001B;
    pub const MESSAGE_INTEGRITY_SHA256: u16 = 0x001C;
    pub const PASSWORD_ALGORITHM: u16 = 0x001D;
    pub const USERHASH: u16 = 0x001E;
    pub const XOR_MAPPED_ADDRESS: u16 = 0x0020;
    pub const RESERVATION_TOKEN: u16 = 0x0022;
    pub const PRIORITY: u16 = 0x0024;
    pub const USE_CANDIDATE: u16 = 0x0025;
    pub const PADDING: u16 = 0x0026;
    pub const RESPONSE_PORT: u16 = 0x0027;
    pub const CONNECTION_ID: u16 = 0x002A;
    pub const ADDITIONAL_ADDRESS_FAMILY: u16 = 0x8000;
    pub const ADDRESS_ERROR_CODE: u16 = 0x8001;
    pub const PASSWORD_ALGORITHMS: u16 = 0x8002;
    pub const ALTERNATE_DOMAIN: u16 = 0x8003;
    pub const ICMP: u16 = 0x8004;
    pub const SOFTWARE: u16 = 0x8022;
    pub const ALTERNATE_SERVER: u16 = 0x8023;
    pub const TRANSACTION_TRANSMIT_COUNTER: u16 = 0x8025;
    pub const CACHE_TIMEOUT: u16 = 0x8027;
    pub const FINGERPRINT: u16 = 0x8028;
    pub const ICE_CONTROLLED: u16 = 0x8029;
    pub const ICE_CONTROLLING: u16 = 0x802A;
    pub const RESPONSE_ORIGIN: u16 = 0x802B;
    pub const OTHER_ADDRESS: u16 = 0x802C;
    pub const ECN_CHECK_STUN: u16 = 0x802D;
    pub const THIRD_PARTY_AUTHORIZATION: u16 = 0x802E;
    pub const MOBILITY_TICKET: u16 = 0x8030;
    pub const CISCO_STUN_FLOWDATA: u16 = 0xC000;
    pub const ENF_FLOW_DESCRIPTION: u16 = 0xC001;
    pub const ENF_NETWORK_STATUS: u16 = 0xC002;
    pub const CISCO_WEBEX_FLOW_INFO: u16 = 0xC003;
    pub const CITRIX_TRANSACTION_ID: u16 = 0xC056;
    pub const GOOG_NETWORK_INFO: u16 = 0xC057;
    pub const GOOG_LAST_ICE_CHECK_RECEIVED: u16 = 0xC058;
    pub const GOOG_MISC_INFO: u16 = 0xC059;
    pub const GOOG_OBSOLETE_1: u16 = 0xC05A;
    pub const GOOG_CONNECTION_ID: u16 = 0xC05B;
    pub const GOOG_DELTA: u16 = 0xC05C;
    pub const GOOG_DELTA_ACK: u16 = 0xC05D;
    pub const GOOG_DELTA_SYNC_REQ: u16 = 0xC05E;
    pub const GOOG_MESSAGE_INTEGRITY_32: u16 = 0xC060;

    pub fn new(codepoint: u16) -> (t: Self)
        ensures
            t == Type(codepoint),
    {
        Self(codepoint)
    }

    pub fn codepoint(self) -> (c: u16)
        ensures
            c == self.0,
    {
        self.0
    }

    /// Whether a receiver that does not know this type must give up on the message:
    /// the types below `0x8000`.
    pub fn is_comprehension_required(self) -> (b: bool)
        ensures
            b == (self.0 < 0x8000),
    {
        self.0 < Self::ADDITIONAL_ADDRESS_FAMILY
    }
}

} // verus!
