//! Guest memory translation of the first Violet design.
use vstd::prelude::*;

verus! {

/// Size of a page.
pub const PAGE_SIZE: usize = 0x1000;

/// The physical address of `vaddr` given the page entry that maps it (its
/// physical page number `ppn`), or 0 when no entry maps it: the page's
/// address with the offset of `vaddr` in its page. The page address is the
/// page number shifted by 12 bits and cut to a machine word.
pub fn to_paddr(ppn: Option<u64>, vaddr: usize) -> (r: usize)
    ensures
        ppn is None ==> r == 0,
        ppn matches Some(p) ==> r == ((p << 12u64) as usize) | (vaddr & 0x0fff),
        ppn matches Some(p) ==> (p * 0x1000 + 0x1000 <= usize::MAX + 1 ==> r == p * 0x1000 + vaddr % 0x1000),
{
    match ppn {
        None => 0,
        Some(p) => {
            let page64: u64 = p << 12u64;
            let page = page64 as usize;
            let r = page | (vaddr & 0x0fff);
            proof {
                if p * 0x1000 + 0x1000 <= usize::MAX + 1 {
                    assert(page64 == p * 0x1000) by (bit_vector)
                        requires
                            page64 == p << 12u64,
                            p < 0x10_0000_0000_0000u64,
                    ;
                    assert(page % 0x1000 == 0);
                    assert(r == page + vaddr % 0x1000) by (bit_vector)
                        requires
                            r == page | (vaddr & 0x0fff),
                            page % 0x1000 == 0,
                    ;
                }
            }
            r
        },
    }
}

} // verus!
