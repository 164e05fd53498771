//! Attribute framing, and the scan of an attribute section into records.
use crate::attribute::Type;
use crate::error::StunError;
use crate::wire::{be16, be16_seq, u16_be_bytes, u16_from_be};
use vstd::prelude::*;

verus! {

/// One attribute as the scan found it: where its value lies, not the value itself.
#[derive(Debug, Clone, Copy, PartialEq, Eq, Structural)]
pub struct RawAttribute {
    pub attr: Type,
    /// The declared length of the value.
    pub len: u16,
    /// Where the value starts in the scanned buffer.
    pub off: u16,
    /// The number of padding bytes after the value.
    pub pad: u16,
}

impl Default for RawAttribute {
    fn default() -> (r: Self)
        ensures
            r == (RawAttribute { attr: Type(0), len: 0, off: 0, pad: 0 }),
    {
        RawAttribute { attr: Type(0), len: 0, off: 0, pad: 0 }
    }
}

/// The number of bytes that bring a value of `len` bytes up to a multiple of 4.
pub open spec fn padding_of(len: int) -> int {
    (4 - len % 4) % 4
}

/// The type and length that start an attribute, as bytes.
pub open spec fn tl_seq(t: Type, l: u16) -> Seq<u8> {
    be16_seq(t.0) + be16_seq(l)
}

/// The longest attribute section that a 16-bit offset can address.
pub const MAX_SOURCE_LEN: usize = 0xFFFF;

impl RawAttribute {
    /// The number of bytes that type and length take.
    pub const TL_LEN: usize = 4;

    /// The largest number of padding bytes.
    pub const MAX_PADDING_LEN: usize = 3;

    /// The cursor position after this attribute: the end of its padding.
    pub open spec fn end(&self) -> int {
        self.off + self.len + self.pad
    }

    /// Writes type and length.
    pub fn encode_type_length(t: Type, l: u16, dst: &mut [u8; 4])
        ensures
            final(dst)@ == tl_seq(t, l),
    {
        let attr = u16_be_bytes(t.codepoint());
        let len = u16_be_bytes(l);
        dst[0] = attr[0];
        dst[1] = attr[1];
        dst[2] = len[0];
        dst[3] = len[1];
        assert(dst@ =~= tl_seq(t, l));
    }

    /// Reads type and length.
    pub fn decode_type_length(src: &[u8; 4]) -> (r: (Type, u16))
        ensures
            r.0 == Type(be16(src@[0], src@[1])),
            r.1 == be16(src@[2], src@[3]),
            tl_seq(r.0, r.1) == src@,
    {
        let attr = u16_from_be(src[0], src[1]);
        let len = u16_from_be(src[2], src[3]);
        assert(tl_seq(Type(attr), len) =~= src@);
        (Type::new(attr), len)
    }

    /// The number of padding bytes after a value of `len` bytes.
    pub fn padding(len: u16) -> (pad: u16)
        ensures
            pad == padding_of(len as int),
            pad == (4 - len % 4) % 4,
            (len + pad) % 4 == 0,
            pad < 4,
    {
        (4 - len % 4) % 4
    }

    /// `len` rounded up to a multiple of 4.
    pub fn padded_len(len: u16) -> (padded: u16)
        requires
            len <= 0xFFFC,
        ensures
            padded == len + padding_of(len as int),
            padded % 4 == 0,
    {
        len + Self::padding(len)
    }

    /// Reads the attribute that starts at `pos`.
    pub fn read_at(src: &[u8], pos: usize) -> (r: Result<Self, StunError>)
        requires
            pos + 4 <= src@.len() <= MAX_SOURCE_LEN,
        ensures
            r == read_at(src@, pos as int),
    {
        let tl: [u8; 4] = [src[pos], src[pos + 1], src[pos + 2], src[pos + 3]];
        let (attr, len) = Self::decode_type_length(&tl);
        let off = pos + 4;
        let pad = Self::padding(len);
        let rem = src.len() - off;
        if rem < len as usize + pad as usize {
            Err(StunError::AttributeTooBig { attr, off: off as u16, rem: rem as u16, len })
        } else {
            Ok(RawAttribute { attr, len, off: off as u16, pad })
        }
    }

    /// Scans `src` into `attrs`, from its first slot on, and returns the number of
    /// attributes found.
    pub fn parse_slots(src: &[u8], attrs: &mut [RawAttribute]) -> (r: Result<usize, StunError>)
        requires
            src@.len() <= MAX_SOURCE_LEN,
        ensures
            final(attrs)@.len() == old(attrs)@.len(),
            match r {
                Ok(n) => n <= old(attrs)@.len() && scan(src@, Some(old(attrs)@.len())) == Ok::<
                    Seq<RawAttribute>,
                    StunError,
                >(final(attrs)@.subrange(0, n as int)),
                Err(e) => scan(src@, Some(old(attrs)@.len())) == Err::<Seq<RawAttribute>, StunError>(
                    e,
                ),
            },
    {
        let ghost slots = Some(attrs@.len());
        let mut pos: usize = 0;
        let mut n: usize = 0;
        proof {
            assert(attrs@.subrange(0, 0) =~= Seq::<RawAttribute>::empty());
            lemma_after_empty(scan_from(src@, 0, slots));
        }
        while src.len() - pos >= 4
            invariant
                pos <= src@.len() <= MAX_SOURCE_LEN,
                n <= attrs@.len(),
                attrs@.len() == old(attrs)@.len(),
                slots == Some(old(attrs)@.len()),
                scan(src@, slots) == after(
                    attrs@.subrange(0, n as int),
                    scan_from(src@, pos as int, fewer(slots, n as nat)),
                ),
            decreases src@.len() - pos,
        {
            if n == attrs.len() {
                return Err(StunError::TooManyAttributes);
            }
            match Self::read_at(src, pos) {
                Err(e) => {
                    return Err(e);
                },
                Ok(rec) => {
                    proof {
                        lemma_after_push(
                            attrs@.subrange(0, n as int),
                            rec,
                            scan_from(src@, rec.end(), fewer(slots, (n + 1) as nat)),
                        );
                    }
                    let ghost before = attrs@;
                    attrs[n] = rec;
                    assert(attrs@.subrange(0, n as int + 1) =~= before.subrange(0, n as int).push(
                        rec,
                    ));
                    n += 1;
                    pos = rec.off as usize + rec.len as usize + rec.pad as usize;
                },
            }
        }
        proof {
            lemma_after_empty_rest(attrs@.subrange(0, n as int));
        }
        Ok(n)
    }
}

/// The attribute at `pos`, whether or not its value fits.
pub open spec fn record_at(src: Seq<u8>, pos: int) -> RawAttribute {
    let len = be16(src[pos + 2], src[pos + 3]);
    RawAttribute {
        attr: Type(be16(src[pos], src[pos + 1])),
        len,
        off: (pos + 4) as u16,
        pad: padding_of(len as int) as u16,
    }
}

/// What reading at `pos` gives: the attribute there, or, where fewer bytes are left
/// than its value and padding take, the error that says so.
pub open spec fn read_at(src: Seq<u8>, pos: int) -> Result<RawAttribute, StunError> {
    let rec = record_at(src, pos);
    let rem = src.len() - (pos + 4);
    if rem < rec.len + rec.pad {
        Err(StunError::AttributeTooBig { attr: rec.attr, off: rec.off, rem: rem as u16, len: rec.len })
    } else {
        Ok(rec)
    }
}

/// `slots` with `n` of them taken; `None` stands for a container that grows.
pub open spec fn fewer(slots: Option<nat>, n: nat) -> Option<nat> {
    match slots {
        Some(s) => Some((s - n) as nat),
        None => None,
    }
}

/// `done` put before the outcome of the rest of a scan.
pub open spec fn after(done: Seq<RawAttribute>, rest: Result<Seq<RawAttribute>, StunError>) -> Result<
    Seq<RawAttribute>,
    StunError,
> {
    match rest {
        Ok(more) => Ok(done + more),
        Err(e) => Err(e),
    }
}

/// The scan from the cursor `pos` on, into a container with `slots` free slots:
/// while 4 bytes are left, take a slot, read the attribute at the cursor and move
/// the cursor past its padding. The first fault ends it.
pub open spec fn scan_from(src: Seq<u8>, pos: int, slots: Option<nat>) -> Result<
    Seq<RawAttribute>,
    StunError,
>
    decreases src.len() - pos,
{
    if pos < 0 || src.len() - pos < 4 {
        Ok(Seq::empty())
    } else if slots == Some(0nat) {
        Err(StunError::TooManyAttributes)
    } else {
        match read_at(src, pos) {
            Err(e) => Err(e),
            Ok(rec) => after(
                seq![rec],
                scan_from(src, pos + 4 + rec.len + rec.pad, fewer(slots, 1)),
            ),
        }
    }
}

/// The scan of a whole attribute section.
pub open spec fn scan(src: Seq<u8>, slots: Option<nat>) -> Result<Seq<RawAttribute>, StunError> {
    scan_from(src, 0, slots)
}

/// Nothing put before an outcome leaves the outcome.
pub proof fn lemma_after_empty(rest: Result<Seq<RawAttribute>, StunError>)
    ensures
        after(Seq::empty(), rest) == rest,
{
    if let Ok(more) = rest {
        assert(Seq::<RawAttribute>::empty() + more =~= more);
    }
}

/// Attributes put before an empty rest are the attributes.
pub proof fn lemma_after_empty_rest(done: Seq<RawAttribute>)
    ensures
        after(done, Ok(Seq::empty())) == Ok::<Seq<RawAttribute>, StunError>(done),
{
    assert(done + Seq::<RawAttribute>::empty() =~= done);
}

/// Putting `done` before `rec` and the rest is putting `done` with `rec` before
/// the rest.
pub proof fn lemma_after_push(
    done: Seq<RawAttribute>,
    rec: RawAttribute,
    rest: Result<Seq<RawAttribute>, StunError>,
)
    ensures
        after(done, after(seq![rec], rest)) == after(done.push(rec), rest),
{
    if let Ok(more) = rest {
        assert(done + (seq![rec] + more) =~= done.push(rec) + more);
    }
}

/// Where a scan that found `recs` from the cursor `pos` on has left the cursor.
pub open spec fn cursor_after(recs: Seq<RawAttribute>, pos: int) -> int {
    if recs.len() == 0 {
        pos
    } else {
        recs.last().end()
    }
}

/// The attributes lie one after another from the cursor `pos` on, each within
/// `src_len` bytes, none over another.
pub open spec fn laid_out(recs: Seq<RawAttribute>, pos: int, src_len: int) -> bool {
    &&& recs.len() > 0 ==> recs[0].off == pos + 4
    &&& forall|i: int|
        #![trigger recs[i]]
        0 <= i < recs.len() ==> pos + 4 <= recs[i].off && recs[i].end() <= src_len && recs[i].pad
            == padding_of(recs[i].len as int)
    &&& forall|i: int, j: int|
        #![trigger recs[i], recs[j]]
        0 <= i < j < recs.len() ==> recs[i].end() + 4 <= recs[j].off && (j == i + 1 ==> recs[j].off
            == recs[i].end() + 4)
    &&& 0 <= src_len - cursor_after(recs, pos) < 4
}

/// A scan that succeeds from a cursor on leaves attributes that are laid out from
/// there, and fewer than 4 bytes after the last.
pub proof fn lemma_scan_from_laid_out(src: Seq<u8>, pos: int, slots: Option<nat>)
    requires
        0 <= pos <= src.len() <= MAX_SOURCE_LEN,
        scan_from(src, pos, slots) is Ok,
    ensures
        laid_out(scan_from(src, pos, slots)->Ok_0, pos, src.len() as int),
        pos % 4 == 0 ==> cursor_after(scan_from(src, pos, slots)->Ok_0, pos) % 4 == 0,
    decreases src.len() - pos,
{
    let recs = scan_from(src, pos, slots)->Ok_0;
    let end = src.len() as int;
    if src.len() - pos >= 4 {
        let rec = read_at(src, pos)->Ok_0;
        let next = pos + 4 + rec.len + rec.pad;
        assert(next == rec.end());
        let rest = scan_from(src, next, fewer(slots, 1))->Ok_0;
        lemma_scan_from_laid_out(src, next, fewer(slots, 1));
        assert(recs == seq![rec] + rest);
        assert(recs[0] == rec);
        assert(recs.len() == rest.len() + 1);
        assert forall|i: int| #![trigger recs[i]] 0 <= i < recs.len() implies pos + 4 <= recs[i].off
            && recs[i].end() <= end && recs[i].pad == padding_of(recs[i].len as int) by {
            if i > 0 {
                assert(recs[i] == rest[i - 1]);
            }
        }
        assert forall|i: int, j: int| #![trigger recs[i], recs[j]] 0 <= i < j < recs.len() implies recs[i].end()
            + 4 <= recs[j].off && (j == i + 1 ==> recs[j].off == recs[i].end() + 4) by {
            assert(recs[j] == rest[j - 1]);
            if i > 0 {
                assert(recs[i] == rest[i - 1]);
            } else if j == 1 {
                assert(rest[0].off == next + 4);
            }
        }
        if rest.len() > 0 {
            assert(recs.last() == rest.last());
        }
        assert(cursor_after(recs, pos) == cursor_after(rest, next));
    }
}

/// Scan totality: where an attribute section whose length is a multiple of 4 scans
/// without a fault, the attributes found start right after the first type and
/// length, follow one another with nothing between them but the next type and
/// length, lie within the section, and the last one ends where the section ends.
pub proof fn lemma_scan_total(src: Seq<u8>, slots: Option<nat>)
    requires
        src.len() % 4 == 0,
        src.len() <= MAX_SOURCE_LEN,
        scan(src, slots) is Ok,
    ensures
        laid_out(scan(src, slots)->Ok_0, 0, src.len() as int),
        cursor_after(scan(src, slots)->Ok_0, 0) == src.len(),
{
    lemma_scan_from_laid_out(src, 0, slots);
}

/// The attributes that a scan into a container that grows finds from the cursor
/// `pos` on.
pub open spec fn attributes_from(src: Seq<u8>, pos: int) -> Seq<RawAttribute>
    recommends
        scan_from(src, pos, None) is Ok,
{
    scan_from(src, pos, None)->Ok_0
}

/// From any cursor on: where a container that grows finds more than `n`
/// attributes, one with `n` slots fails for want of a slot; where it finds `n` or
/// fewer, one with `n` slots finds the same attributes.
pub proof fn lemma_scan_bounded(src: Seq<u8>, pos: int, n: nat)
    requires
        scan_from(src, pos, None) is Ok,
    ensures
        attributes_from(src, pos).len() > n ==> scan_from(src, pos, Some(n)) == Err::<
            Seq<RawAttribute>,
            StunError,
        >(StunError::TooManyAttributes),
        attributes_from(src, pos).len() <= n ==> scan_from(src, pos, Some(n)) == scan_from(
            src,
            pos,
            None,
        ),
    decreases src.len() - pos,
{
    if pos >= 0 && src.len() - pos >= 4 {
        let rec = read_at(src, pos)->Ok_0;
        let next = pos + 4 + rec.len + rec.pad;
        let rest = scan_from(src, next, None)->Ok_0;
        assert(attributes_from(src, pos) == seq![rec] + rest);
        if n > 0 {
            lemma_scan_bounded(src, next, (n - 1) as nat);
        }
    }
}

/// Bounded containers: where a container that grows finds more than `n`
/// attributes in an attribute section, one with `n` slots fails for want of a slot;
/// where it finds `n` or fewer, one with `n` slots finds the same attributes.
pub proof fn lemma_bounded_containers(src: Seq<u8>, n: nat)
    requires
        scan(src, None) is Ok,
    ensures
        scan(src, None)->Ok_0.len() > n ==> scan(src, Some(n)) == Err::<
            Seq<RawAttribute>,
            StunError,
        >(StunError::TooManyAttributes),
        scan(src, None)->Ok_0.len() <= n ==> scan(src, Some(n)) == scan(src, None),
{
    lemma_scan_bounded(src, 0, n);
}

/// What a scan finds where it is given slots, a scan into a container that grows
/// finds too.
pub proof fn lemma_scan_unbounded(src: Seq<u8>, pos: int, slots: Option<nat>)
    requires
        scan_from(src, pos, slots) is Ok,
    ensures
        scan_from(src, pos, None) == scan_from(src, pos, slots),
    decreases src.len() - pos,
{
    if pos >= 0 && src.len() - pos >= 4 {
        let rec = read_at(src, pos)->Ok_0;
        lemma_scan_unbounded(src, pos + 4 + rec.len + rec.pad, fewer(slots, 1));
    }
}

/// Where to put the attributes that a scan finds.
pub trait Container {
    /// The number of attributes that the container can take; `None` where it grows.
    spec fn slots(&self) -> Option<nat>;

    /// Scans `src` and returns the attributes found, in wire order. What the
    /// container held before is gone.
    fn parse(&mut self, src: &[u8]) -> (r: Result<&mut [RawAttribute], StunError>)
        requires
            src@.len() <= MAX_SOURCE_LEN,
        ensures
            match r {
                Ok(recs) => scan(src@, old(self).slots()) == Ok::<Seq<RawAttribute>, StunError>(
                    recs@,
                ),
                Err(e) => scan(src@, old(self).slots()) == Err::<Seq<RawAttribute>, StunError>(e),
            },
    ;
}

impl Container for [RawAttribute] {
    open spec fn slots(&self) -> Option<nat> {
        Some(self@.len())
    }

    fn parse(&mut self, src: &[u8]) -> (r: Result<&mut [RawAttribute], StunError>) {
        match RawAttribute::parse_slots(src, self) {
            Ok(n) => {
                let (found, _) = self.split_at_mut(n);
                Ok(found)
            },
            Err(e) => Err(e),
        }
    }
}

impl<const N: usize> Container for [RawAttribute; N] {
    open spec fn slots(&self) -> Option<nat> {
        Some(N as nat)
    }

    fn parse(&mut self, src: &[u8]) -> (r: Result<&mut [RawAttribute], StunError>) {
        let all: &mut [RawAttribute] = self;
        all.parse(src)
    }
}

impl Container for Vec<RawAttribute> {
    open spec fn slots(&self) -> Option<nat> {
        None
    }

    fn parse(&mut self, src: &[u8]) -> (r: Result<&mut [RawAttribute], StunError>)
        ensures
            r matches Ok(recs) ==> final(self)@ == final(recs)@,
    {
        self.clear();
        let mut pos: usize = 0;
        proof {
            lemma_after_empty(scan_from(src@, 0, None));
        }
        while src.len() - pos >= 4
            invariant
                pos <= src@.len() <= MAX_SOURCE_LEN,
                scan(src@, None) == after(self@, scan_from(src@, pos as int, None)),
            decreases src@.len() - pos,
        {
            match RawAttribute::read_at(src, pos) {
                Err(e) => {
                    return Err(e);
                },
                Ok(rec) => {
                    proof {
                        lemma_after_push(self@, rec, scan_from(src@, rec.end(), None));
                    }
                    self.push(rec);
                    pos = rec.off as usize + rec.len as usize + rec.pad as usize;
                },
            }
        }
        proof {
            lemma_after_empty_rest(self@);
        }
        Ok(self.as_mut_slice())
    }
}

} // verus!
