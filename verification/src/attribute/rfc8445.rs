//! The attributes of ICE.
pub use super::empty::UseCandidate;
pub use super::integer::{IceControlled, IceControlling, Priority};
