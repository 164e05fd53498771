//! A container of 32 slots that lives where it is declared, without allocation.
use crate::error::StunError;
use crate::parse::attribute::{
    after, fewer, lemma_after_empty, lemma_after_empty_rest, lemma_after_push, scan, scan_from,
    Container, RawAttribute, MAX_SOURCE_LEN,
};
use vstd::prelude::*;

verus! {

#[verifier::external_type_specification]
#[verifier::external_body]
#[verifier::reject_recursive_types(T)]
pub struct ExHeaplessVec<T, const N: usize>(heapless::Vec<T, N>);

/// The number of slots of a [`Bounded`].
pub const BOUNDED_SLOTS: usize = 32;

/// A container of 32 slots.
pub type Bounded = heapless::Vec<RawAttribute, 32>;

/// The attributes that a bounded container holds, first to last.
pub uninterp spec fn bounded_records(v: heapless::Vec<RawAttribute, 32>) -> Seq<RawAttribute>;

/// `heapless::Vec::clear`: the container is left empty.
#[verifier::external_body]
fn bounded_clear(v: &mut heapless::Vec<RawAttribute, 32>)
    ensures
        bounded_records(*final(v)) == Seq::<RawAttribute>::empty(),
{
    v.clear()
}

/// `heapless::Vec::push`: where the container holds fewer attributes than it has
/// slots, `item` is put after them; else the container is left as it is and `item`
/// comes back.
#[verifier::external_body]
fn bounded_push(v: &mut heapless::Vec<RawAttribute, 32>, item: RawAttribute) -> (r: Result<
    (),
    RawAttribute,
>)
    ensures
        r is Ok <==> bounded_records(*old(v)).len() < BOUNDED_SLOTS,
        r is Ok ==> bounded_records(*final(v)) == bounded_records(*old(v)).push(item),
        r matches Err(back) ==> back == item && bounded_records(*final(v)) == bounded_records(
            *old(v),
        ),
{
    v.push(item)
}

/// `heapless::Vec::as_mut_slice`: the attributes that the container holds, as a
/// slice through which they can be changed, not added to or removed.
#[verifier::external_body]
fn bounded_as_mut_slice<'a>(v: &'a mut heapless::Vec<RawAttribute, 32>) -> (s: &'a mut [RawAttribute])
    ensures
        s@ == bounded_records(*old(v)),
        bounded_records(*final(v)) == final(s)@,
{
    v.as_mut_slice()
}

impl Container for heapless::Vec<RawAttribute, 32> {
    open spec fn slots(&self) -> Option<nat> {
        Some(BOUNDED_SLOTS as nat)
    }

    fn parse(&mut self, src: &[u8]) -> (r: Result<&mut [RawAttribute], StunError>)
        ensures
            r matches Ok(recs) ==> bounded_records(*final(self)) == final(recs)@,
    {
        let ghost slots = Some(BOUNDED_SLOTS as nat);
        bounded_clear(self);
        let mut pos: usize = 0;
        let mut n: usize = 0;
        proof {
            lemma_after_empty(scan_from(src@, 0, slots));
        }
        while src.len() - pos >= 4
            invariant
                pos <= src@.len() <= MAX_SOURCE_LEN,
                n <= BOUNDED_SLOTS,
                n == bounded_records(*self).len(),
                slots == Some(BOUNDED_SLOTS as nat),
                scan(src@, slots) == after(
                    bounded_records(*self),
                    scan_from(src@, pos as int, fewer(slots, n as nat)),
                ),
            decreases src@.len() - pos,
        {
            if n == BOUNDED_SLOTS {
                return Err(StunError::TooManyAttributes);
            }
            match RawAttribute::read_at(src, pos) {
                Err(e) => {
                    return Err(e);
                },
                Ok(rec) => {
                    proof {
                        lemma_after_push(
                            bounded_records(*self),
                            rec,
                            scan_from(src@, rec.end(), fewer(slots, (n + 1) as nat)),
                        );
                    }
                    match bounded_push(self, rec) {
                        Ok(()) => {},
                        Err(_) => unreached(),
                    }
                    n += 1;
                    pos = rec.off as usize + rec.len as usize + rec.pad as usize;
                },
            }
        }
        proof {
            lemma_after_empty_rest(bounded_records(*self));
        }
        Ok(bounded_as_mut_slice(self))
    }
}

} // verus!
