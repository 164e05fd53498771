//! Quoted text: a sequence of qdtext and quoted-pair.
use vstd::prelude::*;
use vstd::string::*;

verus! {

/// A character that may stand by itself: a tab, a printable ASCII character other
/// than the double quote and the backslash, or any character beyond ASCII.
pub open spec fn is_qdtext(c: u32) -> bool {
    c == 0x09 || 0x20 <= c <= 0x21 || 0x23 <= c <= 0x5B || 0x5D <= c <= 0x7E || c > 0x7F
}

/// A tab or a space.
pub open spec fn is_blank(c: u32) -> bool {
    c == 0x09 || c == 0x20
}

/// A character that may follow a backslash: any but the carriage return and the
/// line feed, of ASCII or beyond it.
pub open spec fn is_quotable(c: u32) -> bool {
    c != 0x0A && c != 0x0D
}

/// Whether the characters from `i` on are quoted text: each step is a qdtext
/// character; or a carriage return, a line feed and a blank; or a backslash and a
/// character that may follow it.
pub open spec fn quoted_from(s: Seq<char>, i: int) -> bool
    decreases s.len() - i,
{
    if i >= s.len() {
        true
    } else if is_qdtext(s[i] as u32) {
        quoted_from(s, i + 1)
    } else if s[i] as u32 == 0x0D {
        i + 2 < s.len() && s[i + 1] as u32 == 0x0A && is_blank(s[i + 2] as u32) && quoted_from(
            s,
            i + 3,
        )
    } else if s[i] as u32 == 0x5C {
        i + 1 < s.len() && is_quotable(s[i + 1] as u32) && quoted_from(s, i + 2)
    } else {
        false
    }
}

/// Whether the text is quoted text.
pub open spec fn quoted_text(s: Seq<char>) -> bool {
    quoted_from(s, 0)
}

/// Where the scan of quoted text stands.
#[derive(Clone, Copy)]
enum State {
    /// Between steps.
    Normal,
    /// After a carriage return.
    CarriageReturn,
    /// After a carriage return and a line feed.
    WhiteSpace,
    /// After a backslash.
    QuotedPair,
}

/// What is still owed from `i` on for the text to be quoted text.
spec fn pending(s: Seq<char>, i: int, state: State) -> bool {
    match state {
        State::Normal => quoted_from(s, i),
        State::CarriageReturn => i + 1 < s.len() && s[i] as u32 == 0x0A && is_blank(
            s[i + 1] as u32,
        ) && quoted_from(s, i + 2),
        State::WhiteSpace => i < s.len() && is_blank(s[i] as u32) && quoted_from(s, i + 1),
        State::QuotedPair => i < s.len() && is_quotable(s[i] as u32) && quoted_from(s, i + 1),
    }
}

/// The state after the character `c`, or `None` where `c` cannot follow.
fn step(state: State, c: u32, Ghost(s): Ghost<Seq<char>>, Ghost(i): Ghost<int>) -> (r: Option<State>)
    requires
        0 <= i < s.len(),
        s[i] as u32 == c,
    ensures
        match r {
            Some(next) => pending(s, i, state) == pending(s, i + 1, next),
            None => !pending(s, i, state),
        },
{
    match state {
        State::Normal => {
            if c == 0x09 || (0x20 <= c && c <= 0x21) || (0x23 <= c && c <= 0x5B) || (0x5D <= c && c
                <= 0x7E) {
                Some(State::Normal)
            } else if c == 0x0D {
                Some(State::CarriageReturn)
            } else if c == 0x5C {
                Some(State::QuotedPair)
            } else if c <= 0x7F {
                None
            } else {
                Some(State::Normal)
            }
        },
        State::CarriageReturn => {
            if c == 0x0A {
                Some(State::WhiteSpace)
            } else {
                None
            }
        },
        State::WhiteSpace => {
            if c == 0x09 || c == 0x20 {
                Some(State::Normal)
            } else {
                None
            }
        },
        State::QuotedPair => {
            if c != 0x0A && c != 0x0D {
                Some(State::Normal)
            } else {
                None
            }
        },
    }
}

/// Whether the text is quoted text.
pub fn is_quoted_text(s: &str) -> (b: bool)
    ensures
        b == quoted_text(s@),
{
    let mut state = State::Normal;
    for c in it: s.chars()
        invariant
            it.seq() == s@,
            quoted_text(s@) == pending(s@, it.index() as int, state),
    {
        match step(state, c as u32, Ghost(s@), Ghost(it.index() as int)) {
            Some(next) => {
                state = next;
            },
            None => {
                return false;
            },
        }
    }
    matches!(state, State::Normal)
}

/// Whether the text is quoted text of ASCII characters alone.
pub fn is_quoted_text_ascii(s: &str) -> (b: bool)
    ensures
        b == (is_ascii(s) && quoted_text(s@)),
{
    let b = s.as_bytes();
    if !s.is_ascii() {
        return false;
    }
    proof {
        is_ascii_spec_bytes(s);
        vstd::utf8::is_ascii_chars_nat_bound(s@);
    }
    let len = b.len();
    let mut index: usize = 0;
    let mut state = State::Normal;
    while index < len
        invariant
            len == s@.len(),
            index <= len,
            b@.len() == len,
            forall|i: int| 0 <= i < len ==> (#[trigger] b@[i]) as u32 == s@[i] as u32,
            quoted_text(s@) == pending(s@, index as int, state),
        decreases len - index,
    {
        match step(state, b[index] as u32, Ghost(s@), Ghost(index as int)) {
            Some(next) => {
                state = next;
            },
            None => {
                return false;
            },
        }
        index += 1;
    }
    matches!(state, State::Normal)
}

} // verus!
