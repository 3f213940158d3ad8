//! Bump allocator: hands out memory from a region, never takes it back.
use vstd::prelude::*;
use vstd::arithmetic::power2::pow2;
use vstd::bits::{low_bits_mask, lemma_usize_low_bits_mask_is_mod};
use crate::kernel::heap::slab::Layout;

verus! {

/// `n` is a power of two.
pub open spec fn is_pow2(n: usize) -> bool {
    exists|k: nat| k < usize::BITS && pow2(k) == n
}

/// The least multiple of `a` not below `pos`.
pub open spec fn align_up(pos: int, a: int) -> int {
    (pos + a - 1) - (pos + a - 1) % a
}

proof fn lemma_align_up_unique(pos: int, a: int, r: int)
    requires
        a > 0,
        r % a == 0,
        pos <= r < pos + a,
    ensures
        r == align_up(pos, a),
{
    let q = align_up(pos, a);
    assert(q % a == 0 && pos <= q < pos + a) by (nonlinear_arith)
        requires
            a > 0,
            q == (pos + a - 1) - (pos + a - 1) % a,
    ;
    assert(r == q) by (nonlinear_arith)
        requires
            a > 0,
            r % a == 0,
            q % a == 0,
            pos <= r < pos + a,
            pos <= q < pos + a,
    ;
}

/// `pos` rounded up to a multiple of `n`, a power of two.
pub fn calc_align(pos: usize, n: usize) -> (r: usize)
    requires
        is_pow2(n),
        pos + n - 1 <= usize::MAX,
    ensures
        r % n == 0,
        pos <= r < pos + n,
        r == align_up(pos as int, n as int),
{
    proof {
        vstd::arithmetic::power2::lemma_pow2_pos(choose|k: nat| k < usize::BITS && pow2(k) == n);
    }
    let m: usize = n - 1;
    let s: usize = pos + m;
    let r = s & !m;
    assert(r & m == 0 && pos <= r && r <= s) by (bit_vector)
        requires
            s == pos + m,
            r == s & !m,
    ;
    proof {
        let k = choose|k: nat| k < usize::BITS && pow2(k) == n;
        lemma_usize_low_bits_mask_is_mod(r, k);
        assert(low_bits_mask(k) == m);
    }
    proof {
        lemma_align_up_unique(pos as int, n as int, r as int);
    }
    r
}

/// The region `[head, end)` still free.
pub struct MinimumAllocator {
    head: usize,
    end: usize,
}

impl MinimumAllocator {
    pub closed spec fn spec_head(&self) -> usize {
        self.head
    }

    pub closed spec fn spec_end(&self) -> usize {
        self.end
    }

    pub fn new(head: usize, end: usize) -> (r: Self)
        ensures
            r.spec_head() == head,
            r.spec_end() == end,
    {
        MinimumAllocator { head, end }
    }

    /// Hands out the first address from `head` aligned for `layout` when the
    /// request fits before `end`, and moves `head` past it; gives 0 and
    /// keeps `head` otherwise.
    pub fn allocate(&mut self, layout: Layout) -> (r: usize)
        requires
            is_pow2(layout.spec_align()),
            old(self).spec_head() + layout.spec_align() - 1 <= usize::MAX,
        ensures
            final(self).spec_end() == old(self).spec_end(),
            ({
                let head = old(self).spec_head();
                let a = layout.spec_align();
                let start = align_up(head as int, a as int);
                &&& start + layout.spec_size() > old(self).spec_end() ==> r == 0 && final(self).spec_head() == head
                &&& start + layout.spec_size() <= old(self).spec_end() ==> r == start && final(self).spec_head()
                    == start + layout.spec_size()
            }),
    {
        let size = layout.size();
        let align = layout.align();
        let start = calc_align(self.head, align);
        if start > self.end || size > self.end - start {
            0
        } else {
            self.head = start + size;
            start
        }
    }

    /// Memory is never given back.
    pub fn deallocate(&mut self, ptr: usize, layout: Layout)
        ensures
            *final(self) == *old(self),
    {
    }
}

/// Two successive allocations of a bump allocator do not overlap: the second
/// starts at or after the end of the first.
pub proof fn lemma_allocations_disjoint(head: int, a1: int, size1: int, a2: int)
    requires
        a1 > 0,
        a2 > 0,
        size1 >= 0,
    ensures
        align_up(head, a1) >= head,
        align_up(align_up(head, a1) + size1, a2) >= align_up(head, a1) + size1,
{
    let p1 = head;
    let q1 = align_up(p1, a1);
    assert(q1 >= p1) by (nonlinear_arith)
        requires
            a1 > 0,
            q1 == (p1 + a1 - 1) - (p1 + a1 - 1) % a1,
    ;
    let p2 = q1 + size1;
    let q2 = align_up(p2, a2);
    assert(q2 >= p2) by (nonlinear_arith)
        requires
            a2 > 0,
            q2 == (p2 + a2 - 1) - (p2 + a2 - 1) % a2,
    ;
}

} // verus!
