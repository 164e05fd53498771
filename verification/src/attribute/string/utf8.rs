//! Bytes as text.
use vstd::prelude::*;
use vstd::string::StringSliceAdditionalSpecFns;
use vstd::utf8::valid_utf8;

verus! {

/// Where bytes stop being UTF-8.
pub(crate) struct Utf8Fault {
    /// The number of bytes from the start that are UTF-8.
    pub valid_up_to: usize,
    /// The length of the invalid sequence that follows them, or `None` where the
    /// bytes end inside a character.
    pub error_len: Option<usize>,
}

/// What `Utf8Error::error_len` gives for bytes that are not UTF-8: the length of
/// the invalid sequence after their longest start that is UTF-8, or `None` where
/// the bytes end inside a character.
pub uninterp spec fn utf8_error_len(b: Seq<u8>) -> Option<usize>;

/// `core::str::from_utf8`: the text that the bytes encode, which is there exactly
/// when the bytes are UTF-8, and has these bytes. Else the fault: `valid_up_to` is
/// the longest start of the bytes that is UTF-8; `error_len` is `None` where the
/// bytes end one to three bytes after it, inside a character, and else the length of
/// the invalid sequence that follows it.
#[verifier::external_body]
pub(crate) fn str_from_utf8(b: &[u8]) -> (r: Result<&str, Utf8Fault>)
    ensures
        r is Ok <==> valid_utf8(b@),
        r matches Ok(s) ==> s.spec_bytes() == b@,
        r matches Err(f) ==> is_fault(b@, f.valid_up_to as int, f.error_len) && f.error_len
            == utf8_error_len(b@),
{
    match core::str::from_utf8(b) {
        Ok(s) => Ok(s),
        Err(e) => Err(Utf8Fault { valid_up_to: e.valid_up_to(), error_len: e.error_len() }),
    }
}

/// Whether `valid_up_to` and `error_len` say where `b` stops being UTF-8.
pub open spec fn is_fault(b: Seq<u8>, valid_up_to: int, error_len: Option<usize>) -> bool {
    &&& ends_valid_start(b, valid_up_to)
    &&& match error_len {
        None => b.len() - valid_up_to <= 3,
        Some(n) => 1 <= n && valid_up_to + n <= b.len(),
    }
}

/// Whether the first `v` bytes of `b` are its longest start that is UTF-8, and not
/// all of it.
pub open spec fn ends_valid_start(b: Seq<u8>, v: int) -> bool {
    &&& 0 <= v < b.len()
    &&& valid_utf8(b.take(v))
    &&& forall|k: int| v < k <= b.len() ==> !#[trigger] valid_utf8(b.take(k))
}

/// The length of the longest start of `b` that is UTF-8, for bytes that are not
/// UTF-8 as a whole.
pub open spec fn utf8_valid_up_to(b: Seq<u8>) -> int {
    choose|v: int| ends_valid_start(b, v)
}

/// Bytes have one longest start that is UTF-8.
pub proof fn lemma_valid_up_to(b: Seq<u8>, v: int)
    requires
        ends_valid_start(b, v),
    ensures
        utf8_valid_up_to(b) == v,
{
    let w = utf8_valid_up_to(b);
    assert(ends_valid_start(b, w));
    if w < v {
        assert(!valid_utf8(b.take(v)));
    } else if v < w {
        assert(!valid_utf8(b.take(w)));
    }
}

/// Bytes under 128 are UTF-8: each is a character by itself.
pub proof fn lemma_ascii_is_utf8(b: Seq<u8>)
    requires
        forall|i: int| 0 <= i < b.len() ==> (#[trigger] b[i]) <= 0x7F,
    ensures
        valid_utf8(b),
{
    assert(b.subrange(0, 0) =~= Seq::<u8>::empty());
    assert(valid_utf8(b.subrange(0, 0)));
    assert forall|i: int| 0 <= i < b.len() implies #[trigger] vstd::utf8::is_leading_byte_width_1(
        b[i],
    ) by {
        let x = b[i];
        assert(x <= 0x7F);
        assert(x & 0x80 == 0) by (bit_vector)
            requires
                x <= 0x7F,
        ;
    }
    vstd::utf8::partial_valid_utf8_extend_ascii_block(b, 0, b.len() as int);
    assert(b.subrange(0, b.len() as int) =~= b);
}

} // verus!
