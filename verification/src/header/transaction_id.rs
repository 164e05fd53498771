//! The transaction id of a message.
use vstd::prelude::*;

verus! {

/// The twelve bytes that tie a response to its request.
#[derive(Debug, Clone, Copy, PartialEq, Eq, Hash, PartialOrd, Ord)]
pub struct TransactionId(pub [u8; 12]);

impl TransactionId {
    /// The number of bytes in a transaction id.
    pub const LEN: usize = 12;

    pub fn new(id: [u8; 12]) -> (t: Self)
        ensures
            t.0 == id,
    {
        Self(id)
    }

    pub fn get(&self) -> (id: &[u8; 12])
        ensures
            *id == self.0,
    {
        &self.0
    }
}

impl Default for TransactionId {
    fn default() -> (t: Self)
        ensures
            t.0@ == Seq::new(12, |i: int| 0u8),
    {
        let t = Self([0; 12]);
        assert(t.0@ =~= Seq::new(12, |i: int| 0u8));
        t
    }
}

impl View for TransactionId {
    type V = Seq<u8>;

    open spec fn view(&self) -> Seq<u8> {
        self.0@
    }
}

} // verus!
