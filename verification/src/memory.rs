//! Memory driver core: shaping resident memory by touching pages of a
//! buffer as the target grows, and naming the tail to release as it shrinks.

use vstd::prelude::*;

verus! {

/// Distance between two touched bytes while growing: one byte per page.
pub const PAGE_STEP: usize = 4096;

/// `n` rounded up to a multiple of `PAGE_STEP`.
pub open spec fn page_ceil(n: int) -> int {
    ((n + 4095) / 4096) * 4096
}

/// The first byte written when the filled length grows from `filled` to
/// `target`: the first page boundary at or after `filled`, or `filled`
/// itself when no page boundary lies below `target`.
pub open spec fn first_touch(filled: int, target: int) -> int {
    if page_ceil(filled) >= target {
        filled
    } else {
        page_ceil(filled)
    }
}

/// Whether byte `i` is written when the filled length grows from `filled`
/// to `target`: from `first_touch` on, one byte every `PAGE_STEP` bytes,
/// below `target`.
pub open spec fn touched(filled: int, target: int, i: int) -> bool {
    &&& filled < target
    &&& first_touch(filled, target) <= i < target
    &&& (i - first_touch(filled, target)) % 4096 == 0
}

/// Two distinct multiples of the page size lie at least a page apart.
proof fn lemma_multiples_a_page_apart(a: int, b: int)
    requires
        0 <= a < b,
        a % 4096 == 0,
        b % 4096 == 0,
    ensures
        a + 4096 <= b,
{
    vstd::arithmetic::div_mod::lemma_fundamental_div_mod(a, 4096);
    vstd::arithmetic::div_mod::lemma_fundamental_div_mod(b, 4096);
    let qa = a / 4096;
    let qb = b / 4096;
    assert(qa < qb) by (nonlinear_arith)
        requires
            a == 4096 * qa,
            b == 4096 * qb,
            a < b,
    ;
    assert(4096 * qa + 4096 <= 4096 * qb) by (nonlinear_arith)
        requires
            qa < qb,
    ;
}

/// `page_ceil(n)` is the least multiple of the page size at or above `n`.
proof fn lemma_page_ceil(n: int, m: int)
    requires
        0 <= n,
    ensures
        n <= page_ceil(n) <= n + 4095,
        page_ceil(n) % 4096 == 0,
        n <= m && m % 4096 == 0 ==> page_ceil(n) <= m,
{
    let q = (n + 4095) / 4096;
    vstd::arithmetic::div_mod::lemma_fundamental_div_mod(n + 4095, 4096);
    assert(page_ceil(n) == q * 4096);
    vstd::arithmetic::div_mod::lemma_mod_multiples_basic(q, 4096);
    if n <= m && m % 4096 == 0 {
        vstd::arithmetic::div_mod::lemma_fundamental_div_mod(m, 4096);
        let qm = m / 4096;
        assert(q <= qm) by (nonlinear_arith)
            requires
                n + 4095 == 4096 * q + (n + 4095) % 4096,
                0 <= (n + 4095) % 4096 < 4096,
                m == 4096 * qm,
                n <= m,
        ;
        assert(q * 4096 <= qm * 4096) by (nonlinear_arith)
            requires
                q <= qm,
        ;
    }
}

/// The offset of the first byte to write when growing from `filled` to
/// `target`.
pub fn first_touch_offset(filled: usize, target: usize) -> (r: usize)
    requires
        filled + 4095 <= usize::MAX,
    ensures
        r == first_touch(filled as int, target as int),
{
    proof {
        lemma_page_ceil(filled as int, 0);
    }
    let offset = (filled + (PAGE_STEP - 1)) / PAGE_STEP * PAGE_STEP;
    if offset >= target {
        filled
    } else {
        offset
    }
}

/// Write `value` into every byte that `touched` names for a growth from
/// `filled` to `target`, so that each page of the grown range is faulted in.
pub fn touch_pages(buf: &mut Vec<u8>, filled: usize, target: usize, value: u8)
    requires
        filled < target <= old(buf).len(),
        filled + 4095 <= usize::MAX,
    ensures
        final(buf).len() == old(buf).len(),
        forall|i: int|
            0 <= i < old(buf).len() ==> #[trigger] final(buf)[i] == if touched(
                filled as int,
                target as int,
                i,
            ) {
                value
            } else {
                old(buf)[i]
            },
{
    let first = first_touch_offset(filled, target);
    proof {
        lemma_page_ceil(filled as int, 0);
    }
    let ghost orig = buf@;
    let mut offset = first;
    while offset < target
        invariant
            first == first_touch(filled as int, target as int),
            filled <= first < target,
            first <= offset,
            offset < target ==> (offset - first) % 4096 == 0,
            target <= buf.len(),
            buf.len() == orig.len(),
            forall|i: int|
                0 <= i < orig.len() ==> #[trigger] buf@[i] == if first <= i < offset && i
                    < target && (i - first) % 4096 == 0 {
                    value
                } else {
                    orig[i]
                },
        decreases usize::MAX - offset,
    {
        let ghost before = buf@;
        let ghost at = offset;
        buf.set(offset, value);
        offset = offset.saturating_add(PAGE_STEP);
        proof {
            assert forall|i: int| 0 <= i < orig.len() implies #[trigger] buf@[i] == if first <= i
                < offset && i < target && (i - first) % 4096 == 0 {
                value
            } else {
                orig[i]
            } by {
                if i != at && at < i && i < offset && i < target && (i - first) % 4096 == 0 {
                    lemma_multiples_a_page_apart(at - first, i - first);
                }
                if i != at {
                    assert(buf@[i] == before[i]);
                }
            }
            if offset < target {
                vstd::arithmetic::div_mod::lemma_mod_add_multiples_vanish(at - first, 4096);
            }
        }
    }
}

/// The outcome of one shaping step.
#[derive(PartialEq, Eq, Structural, Debug, Clone, Copy)]
pub enum RssStep {
    /// The filled length grew; the new pages were touched.
    Grew,
    /// The filled length shrank: the bytes in `start..end` are no longer
    /// needed and may be handed back to the kernel.
    Release { start: usize, end: usize },
    /// The filled length was already on target.
    Unchanged,
}

/// State of the memory shaper: how many bytes of the buffer are filled,
/// and the value written into pages on the next growth.
pub struct RssShaper {
    cap: usize,
    filled_len: usize,
    counter: u8,
}

/// `x + 1` modulo 256.
pub open spec fn next_stamp(x: u8) -> u8 {
    if x == 255 {
        0
    } else {
        (x + 1) as u8
    }
}

impl RssShaper {
    #[verifier::type_invariant]
    spec fn inv(self) -> bool {
        &&& self.filled_len <= self.cap
        &&& self.cap <= isize::MAX
    }

    /// Size of the buffer that is shaped.
    pub closed spec fn capacity(self) -> nat {
        self.cap as nat
    }

    /// Number of leading bytes of the buffer that are filled.
    pub closed spec fn filled(self) -> nat {
        self.filled_len as nat
    }

    /// Value written into pages on the next growth.
    pub closed spec fn stamp(self) -> u8 {
        self.counter
    }

    /// A shaper for a buffer of `cap` bytes, nothing filled yet; `None`
    /// when `cap` is 0 and there is nothing to shape.
    pub fn new(cap: usize) -> (r: Option<Self>)
        requires
            cap <= isize::MAX,
        ensures
            cap == 0 <==> r is None,
            r matches Some(s) ==> s.capacity() == cap && s.filled() == 0 && s.stamp() == 1,
    {
        if cap == 0 {
            None
        } else {
            Some(RssShaper { cap, filled_len: 0, counter: 1 })
        }
    }

    /// Size of the buffer that is shaped.
    pub fn capacity_bytes(&self) -> (r: usize)
        ensures
            r == self.capacity(),
    {
        self.cap
    }

    /// Number of leading bytes of the buffer that are filled.
    pub fn filled_len(&self) -> (r: usize)
        ensures
            r == self.filled(),
            r <= self.capacity(),
    {
        proof {
            use_type_invariant(self);
        }
        self.filled_len
    }

    /// Move the filled length to `target`. Growing writes the current stamp
    /// into one byte per page of the grown range and advances the stamp;
    /// shrinking names the tail that is no longer needed.
    pub fn step(&mut self, target: usize, buf: &mut Vec<u8>) -> (r: RssStep)
        requires
            old(buf).len() == old(self).capacity(),
            target <= old(self).capacity(),
        ensures
            final(self).capacity() == old(self).capacity(),
            final(self).filled() == target,
            final(buf).len() == old(buf).len(),
            target > old(self).filled() ==> {
                &&& r == RssStep::Grew
                &&& final(self).stamp() == next_stamp(old(self).stamp())
                &&& forall|i: int|
                    0 <= i < old(buf).len() ==> #[trigger] final(buf)[i] == if touched(
                        old(self).filled() as int,
                        target as int,
                        i,
                    ) {
                        old(self).stamp()
                    } else {
                        old(buf)[i]
                    }
            },
            target < old(self).filled() ==> {
                &&& r == (RssStep::Release { start: target, end: old(self).filled() as usize })
                &&& final(self).stamp() == old(self).stamp()
                &&& final(buf)@ == old(buf)@
            },
            target == old(self).filled() ==> {
                &&& r == RssStep::Unchanged
                &&& final(self).stamp() == old(self).stamp()
                &&& final(buf)@ == old(buf)@
            },
    {
        proof {
            use_type_invariant(&*self);
        }
        let filled = self.filled_len;
        if target > filled {
            touch_pages(buf, filled, target, self.counter);
            self.counter = self.counter.wrapping_add(1);
            self.filled_len = target;
            RssStep::Grew
        } else if target < filled {
            self.filled_len = target;
            RssStep::Release { start: target, end: filled }
        } else {
            RssStep::Unchanged
        }
    }
}

/// Growing touches every page boundary that lies in the grown range.
pub proof fn lemma_growth_touches_every_page(filled: nat, target: nat, m: nat)
    requires
        filled <= m < target,
        m % 4096 == 0,
    ensures
        touched(filled as int, target as int, m as int),
{
    lemma_page_ceil(filled as int, m as int);
    assert(first_touch(filled as int, target as int) == page_ceil(filled as int));
    vstd::arithmetic::div_mod::lemma_sub_mod_noop(m as int, page_ceil(filled as int), 4096);
}

/// Growing writes at least one byte, and only bytes of the grown range.
pub proof fn lemma_growth_stays_in_range(filled: nat, target: nat)
    requires
        filled < target,
    ensures
        touched(filled as int, target as int, first_touch(filled as int, target as int)),
        forall|i: int| touched(filled as int, target as int, i) ==> filled <= i < target,
{
    lemma_page_ceil(filled as int, 0);
}

} // verus!
