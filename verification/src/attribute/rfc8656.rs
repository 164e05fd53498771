//! The attributes of TURN.
pub mod parsed;

pub use super::addr::{
    AdditionalAddressFamily, RequestedAddressFamily, XorPeerAddress, XorRelayedAddress,
};
pub use super::data::Data;
pub use super::empty::DontFragment;
pub use super::error_code::AddressErrorCode;
pub use super::integer::Lifetime;
