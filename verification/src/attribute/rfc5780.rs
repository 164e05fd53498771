//! The attribute of NAT behaviour discovery.
pub use super::change_request::ChangeRequest;
