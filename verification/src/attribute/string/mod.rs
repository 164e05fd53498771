//! Text attributes, and the checks that their text must pass.
use vstd::prelude::*;

pub mod dns;
pub mod error;
pub mod length;
pub mod opaque;
pub mod quoted;
mod sealed;
pub mod text_attr;
pub mod utf8;
pub mod validated;

pub use text_attr::{AlternateDomain, Nonce, Realm, Software, Username};
pub use validated::Validated;

verus! {

/// Something that holds text.
pub trait AsStr: sealed::Sealed {
    /// The text that is held.
    spec fn text(&self) -> Seq<char>;

    fn as_str(&self) -> (s: &str)
        ensures
            s@ == self.text(),
    ;
}

impl<'a> AsStr for &'a str {
    open spec fn text(&self) -> Seq<char> {
        self@
    }

    fn as_str(&self) -> (s: &str) {
        self
    }
}

impl AsStr for String {
    open spec fn text(&self) -> Seq<char> {
        self@
    }

    fn as_str(&self) -> (s: &str) {
        String::as_str(self)
    }
}

impl<T: AsStr, const D: bool, const Q: bool, const O: bool> AsStr for Validated<T, D, Q, O> {
    open spec fn text(&self) -> Seq<char> {
        self@
    }

    fn as_str(&self) -> (s: &str) {
        Validated::as_str(self)
    }
}

} // verus!
