//! Host names.
use crate::attribute::string::utf8::{lemma_ascii_is_utf8, str_from_utf8};
use crate::error::StunError;
use vstd::prelude::*;
use vstd::string::StringSliceAdditionalSpecFns;

verus! {

/// The longest label of a host name, in bytes.
pub const MAX_LABEL_LENGTH: usize = 63;

/// The longest host name, in bytes.
pub const MAX_NAME_LENGTH: usize = 253;

pub const DOT: u8 = 0x2E;

pub const HYPHEN: u8 = 0x2D;

pub open spec fn is_letter(b: u8) -> bool {
    0x41 <= b <= 0x5A || 0x61 <= b <= 0x7A
}

pub open spec fn is_digit(b: u8) -> bool {
    0x30 <= b <= 0x39
}

/// Where the label starts that `end` ends or lies in: after the last dot before
/// `end`, or at 0.
pub open spec fn label_start(b: Seq<u8>, end: int) -> int
    decreases end,
{
    if end <= 0 {
        0
    } else if b[end - 1] == DOT {
        end
    } else {
        label_start(b, end - 1)
    }
}

/// Whether the bytes from `from` up to `to` are all digits.
pub open spec fn all_digits(b: Seq<u8>, from: int, to: int) -> bool {
    forall|k: int| from <= k < to ==> is_digit(#[trigger] b[k])
}

/// Whether the byte at `i` may stand there: a letter, a digit, a hyphen that does
/// not start a label, or a dot after a letter or digit; and the label that it
/// belongs to is no longer than 63 bytes up to it.
pub open spec fn byte_in_place(b: Seq<u8>, i: int) -> bool {
    &&& is_letter(b[i]) || is_digit(b[i]) || b[i] == HYPHEN || b[i] == DOT
    &&& b[i] == DOT ==> i > 0 && (is_letter(b[i - 1]) || is_digit(b[i - 1]))
    &&& b[i] == HYPHEN ==> i > 0 && b[i - 1] != DOT
    &&& i + 1 - label_start(b, i + 1) <= MAX_LABEL_LENGTH
}

/// Where the last label ends: before the dot that ends the name, if there is one.
pub open spec fn name_end(b: Seq<u8>) -> int {
    if b.len() > 0 && b.last() == DOT {
        b.len() - 1
    } else {
        b.len() as int
    }
}

/// Whether the bytes are a host name: 1 to 253 bytes; labels of letters, digits
/// and hyphens, set apart by single dots, with a dot allowed at the end; no label
/// empty, over 63 bytes, or with a hyphen at its start or end; and the last label
/// not of digits alone.
pub open spec fn is_domain_name(b: Seq<u8>) -> bool {
    &&& 1 <= b.len() <= MAX_NAME_LENGTH
    &&& forall|i: int| 0 <= i < b.len() ==> #[trigger] byte_in_place(b, i)
    &&& b.last() != HYPHEN
    &&& !all_digits(b, label_start(b, name_end(b)), name_end(b))
}

/// Where the scan of a name stands.
enum State {
    /// At the start of the name, or after the dot that ended a label which had
    /// something else than digits.
    Next,
    /// After a letter or digit, in a label that has something else than digits.
    Subsequent,
    /// In a label that has only digits so far.
    NumericOnly,
    /// After a hyphen.
    Hyphen,
    /// After the dot that ended a label of digits alone.
    NextAfterNumericOnly,
}

/// Whether `state` is the state after the first `i` bytes.
spec fn state_fits(b: Seq<u8>, i: int, state: State) -> bool {
    match state {
        State::Next => i == 0 || (b[i - 1] == DOT && !all_digits(
            b,
            label_start(b, i - 1),
            i - 1,
        )),
        State::NextAfterNumericOnly => i > 0 && b[i - 1] == DOT && all_digits(
            b,
            label_start(b, i - 1),
            i - 1,
        ),
        State::NumericOnly => i > 0 && is_digit(b[i - 1]) && all_digits(b, label_start(b, i), i),
        State::Subsequent => i > 0 && (is_letter(b[i - 1]) || is_digit(b[i - 1])) && !all_digits(
            b,
            label_start(b, i),
            i,
        ),
        State::Hyphen => i > 0 && b[i - 1] == HYPHEN,
    }
}

/// A label starts at or before its end, and not before 0.
proof fn lemma_label_start_bounds(b: Seq<u8>, end: int)
    requires
        0 <= end,
    ensures
        0 <= label_start(b, end) <= end,
    decreases end,
{
    if end > 0 && b[end - 1] != DOT {
        lemma_label_start_bounds(b, end - 1);
    }
}

/// Checks that the bytes are a host name, and gives them back as text.
pub fn validate_domain_name(b: &[u8]) -> (r: Result<&str, StunError>)
    ensures
        match r {
            Ok(s) => is_domain_name(b@) && s.spec_bytes() == b@,
            Err(e) => !is_domain_name(b@) && e == StunError::InvalidDnsName,
        },
{
    let len = b.len();
    if len < 1 || len > MAX_NAME_LENGTH {
        return Err(StunError::InvalidDnsName);
    }
    let mut index: usize = 0;
    let mut curr: usize = 0;
    let mut state = State::Next;
    while index < len
        invariant
            len == b@.len(),
            1 <= len <= MAX_NAME_LENGTH,
            index <= len,
            forall|j: int| 0 <= j < index ==> #[trigger] byte_in_place(b@, j),
            forall|j: int| 0 <= j < index ==> (#[trigger] b@[j]) <= 0x7F,
            curr == index - label_start(b@, index as int),
            curr <= MAX_LABEL_LENGTH,
            state_fits(b@, index as int, state),
        decreases len - index,
    {
        let byte = b[index];
        let ghost i = index as int;
        proof {
            lemma_label_start_bounds(b@, i);
            if i > 0 {
                lemma_label_start_bounds(b@, i - 1);
            }
        }
        let next: State;
        if byte == HYPHEN {
            match state {
                State::Subsequent | State::NumericOnly | State::Hyphen => {
                    next = State::Hyphen;
                    curr = curr + 1;
                },
                _ => {
                    assert(!byte_in_place(b@, i));
                    return Err(StunError::InvalidDnsName);
                },
            }
        } else if byte == DOT {
            match state {
                State::Subsequent => {
                    next = State::Next;
                    curr = 0;
                },
                State::NumericOnly => {
                    next = State::NextAfterNumericOnly;
                    curr = 0;
                },
                _ => {
                    assert(!byte_in_place(b@, i));
                    return Err(StunError::InvalidDnsName);
                },
            }
        } else if 0x30 <= byte && byte <= 0x39 {
            match state {
                State::Next | State::NextAfterNumericOnly | State::NumericOnly => {
                    next = State::NumericOnly;
                },
                State::Subsequent => {
                    next = State::Subsequent;
                },
                State::Hyphen => {
                    assert(label_start(b@, i) <= i - 1);
                    assert(!is_digit(b@[i - 1]));
                    assert(!all_digits(b@, label_start(b@, i), i + 1));
                    next = State::Subsequent;
                },
            }
            curr = curr + 1;
        } else if (0x41 <= byte && byte <= 0x5A) || (0x61 <= byte && byte <= 0x7A) {
            assert(!is_digit(b@[i]));
            assert(!all_digits(b@, label_start(b@, i), i + 1));
            next = State::Subsequent;
            curr = curr + 1;
        } else {
            assert(!byte_in_place(b@, i));
            return Err(StunError::InvalidDnsName);
        }
        if curr > MAX_LABEL_LENGTH {
            assert(!byte_in_place(b@, i));
            return Err(StunError::InvalidDnsName);
        }
        assert(byte_in_place(b@, i));
        state = next;
        index += 1;
    }
    proof {
        lemma_label_start_bounds(b@, len as int);
        lemma_label_start_bounds(b@, len as int - 1);
    }
    match state {
        State::Next | State::Subsequent => {
            proof {
                lemma_ascii_is_utf8(b@);
            }
            match str_from_utf8(b) {
                Ok(s) => Ok(s),
                Err(_) => unreached(),
            }
        },
        State::NumericOnly | State::Hyphen | State::NextAfterNumericOnly => Err(
            StunError::InvalidDnsName,
        ),
    }
}

} // verus!
