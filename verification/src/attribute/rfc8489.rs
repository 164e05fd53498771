//! The attributes of STUN.
pub mod parsed;

pub use super::addr::{AlternateServer, MappedAddress, XorMappedAddress};
pub use super::error_code::ErrorCode;
pub use super::fixed::{MessageIntegrity, MessageIntegritySha256, UserHash};
pub use super::integer::Fingerprint;
pub use super::password::{PasswordAlgorithm, PasswordAlgorithms};
pub use super::string::{AlternateDomain, Nonce, Realm, Software, Username};
pub use super::unknown::UnknownAttributes;
