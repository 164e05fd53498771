//! Reading a message: its attributes one by one, then the message as a whole.
pub mod attribute;
pub mod bounded;
pub mod message;

pub use attribute::{Container, RawAttribute};
pub use bounded::Bounded;
pub use message::{Item, MessageParser, ValidationHeader};
