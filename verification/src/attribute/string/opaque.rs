//! Opaque strings: text without the characters that the OpaqueString profile of
//! PRECIS keeps out of user names and passwords.
use vstd::prelude::*;
use vstd::string::*;

verus! {

/// Whether a character is kept out of opaque strings: a control character, an old
/// Hangul jamo, a character that is ignored in display or that steers the direction
/// of text, or a code point that stands for no character.
pub open spec fn is_disallowed(c: u32) -> bool {
    ||| c <= 0x1F
    ||| 0x7F <= c <= 0x9F
    ||| c == 0xAD
    ||| 0x1100 <= c <= 0x11FF
    ||| 0x200B <= c <= 0x200F
    ||| 0x2028 <= c <= 0x202E
    ||| 0x2060 <= c <= 0x206F
    ||| 0xA960 <= c <= 0xA97F
    ||| 0xD7B0 <= c <= 0xD7FF
    ||| 0xFDD0 <= c <= 0xFDEF
    ||| c == 0xFEFF
    ||| 0xFFF9 <= c <= 0xFFFB
    ||| c % 0x1_0000 >= 0xFFFE
}

/// Whether the text is an opaque string: none of its characters is kept out.
pub open spec fn opaque_text(s: Seq<char>) -> bool {
    forall|i: int| 0 <= i < s.len() ==> !is_disallowed(#[trigger] s[i] as u32)
}

/// Whether a character is kept out of opaque strings.
fn disallowed(c: u32) -> (b: bool)
    ensures
        b == is_disallowed(c),
{
    c <= 0x1F || (0x7F <= c && c <= 0x9F) || c == 0xAD || (0x1100 <= c && c <= 0x11FF) || (0x200B
        <= c && c <= 0x200F) || (0x2028 <= c && c <= 0x202E) || (0x2060 <= c && c <= 0x206F) || (
    0xA960 <= c && c <= 0xA97F) || (0xD7B0 <= c && c <= 0xD7FF) || (0xFDD0 <= c && c <= 0xFDEF) || c
        == 0xFEFF || (0xFFF9 <= c && c <= 0xFFFB) || c % 0x1_0000 >= 0xFFFE
}

/// Whether the text is an opaque string.
pub fn is_opaque_string(s: &str) -> (b: bool)
    ensures
        b == opaque_text(s@),
{
    for c in it: s.chars()
        invariant
            it.seq() == s@,
            forall|i: int| 0 <= i < it.index() ==> !is_disallowed(#[trigger] s@[i] as u32),
    {
        if disallowed(c as u32) {
            assert(s@[it.index() as int] == c);
            return false;
        }
    }
    true
}

/// Whether the text is an opaque string of ASCII characters alone: of the
/// characters from the space to the tilde.
pub fn is_opaque_string_ascii(s: &str) -> (b: bool)
    ensures
        b == (is_ascii(s) && opaque_text(s@)),
{
    let b = s.as_bytes();
    if !s.is_ascii() {
        return false;
    }
    proof {
        is_ascii_spec_bytes(s);
        vstd::utf8::is_ascii_chars_nat_bound(s@);
    }
    let len = b.len();
    let mut index: usize = 0;
    while index < len
        invariant
            len == s@.len(),
            index <= len,
            b@.len() == len,
            forall|i: int| 0 <= i < len ==> (#[trigger] b@[i]) as u32 == s@[i] as u32,
            forall|i: int| 0 <= i < len ==> (#[trigger] b@[i]) <= 0x7F,
            forall|i: int| 0 <= i < index ==> !is_disallowed(#[trigger] s@[i] as u32),
        decreases len - index,
    {
        let byte = b[index];
        if byte < 0x20 || byte > 0x7E {
            assert(is_disallowed(s@[index as int] as u32));
            return false;
        }
        assert(!is_disallowed(s@[index as int] as u32));
        index += 1;
    }
    true
}

} // verus!
