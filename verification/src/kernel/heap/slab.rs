//! Slab allocator: the heap is cut into seven slabs of equal size, each one a
//! list of free blocks of one size (64 to 4096 bytes).
use vstd::prelude::*;

verus! {

pub const NUM_OF_SLABS: usize = 8;
pub const MIN_SLAB_SIZE: usize = 4096;
pub const MIN_HEAP_SIZE: usize = 32768;

/// Size and alignment of a requested allocation, in bytes.
#[derive(Clone, Copy, Debug)]
pub struct Layout {
    size: usize,
    align: usize,
}

impl Layout {
    pub fn new(size: usize, align: usize) -> (r: Self)
        ensures
            r.spec_size() == size,
            r.spec_align() == align,
    {
        Layout { size, align }
    }

    pub closed spec fn spec_size(&self) -> usize {
        self.size
    }

    pub closed spec fn spec_align(&self) -> usize {
        self.align
    }

    #[verifier::when_used_as_spec(spec_size)]
    pub fn size(&self) -> (r: usize)
        ensures
            r == self.spec_size(),
    {
        self.size
    }

    #[verifier::when_used_as_spec(spec_align)]
    pub fn align(&self) -> (r: usize)
        ensures
            r == self.spec_align(),
    {
        self.align
    }
}

/// The slab an allocation is served from.
#[derive(PartialEq, Eq, Structural, Clone, Copy, Debug)]
pub enum HeapAllocator {
    Slab64Bytes,
    Slab128Bytes,
    Slab256Bytes,
    Slab512Bytes,
    Slab1024Bytes,
    Slab2048Bytes,
    Slab4096Bytes,
}

/// The block size of a slab.
pub open spec fn class_block_size(c: HeapAllocator) -> usize {
    match c {
        HeapAllocator::Slab64Bytes => 64,
        HeapAllocator::Slab128Bytes => 128,
        HeapAllocator::Slab256Bytes => 256,
        HeapAllocator::Slab512Bytes => 512,
        HeapAllocator::Slab1024Bytes => 1024,
        HeapAllocator::Slab2048Bytes => 2048,
        HeapAllocator::Slab4096Bytes => 4096,
    }
}

/// The slab of the smallest block size not below the requested size and
/// alignment, with the 4096-byte slab for whatever is left.
pub open spec fn spec_size_class(size: usize, align: usize) -> HeapAllocator {
    if size <= 64 && align <= 64 {
        HeapAllocator::Slab64Bytes
    } else if size <= 128 && align <= 128 {
        HeapAllocator::Slab128Bytes
    } else if size <= 256 && align <= 256 {
        HeapAllocator::Slab256Bytes
    } else if size <= 512 && align <= 512 {
        HeapAllocator::Slab512Bytes
    } else if size <= 1024 && align <= 1024 {
        HeapAllocator::Slab1024Bytes
    } else if size <= 2048 && align <= 2048 {
        HeapAllocator::Slab2048Bytes
    } else {
        HeapAllocator::Slab4096Bytes
    }
}

/// The addresses of `num` blocks of `block_size` bytes from `start`, in the
/// order of a free list whose head is its last element: the block at `start`
/// is the head.
pub open spec fn fresh_blocks(start: usize, block_size: usize, num: nat) -> Seq<usize> {
    Seq::new(num, |k: int| (start + (num - 1 - k) * block_size) as usize)
}

/// The addresses of `num` blocks of `block_size` bytes from `start`, lowest
/// first.
pub open spec fn ascending_blocks(start: usize, block_size: usize, num: nat) -> Seq<usize> {
    Seq::new(num, |k: int| (start + k * block_size) as usize)
}

/// A block handed out by a free list.
pub struct FreeBlock {
    addr: usize,
}

impl FreeBlock {
    pub closed spec fn spec_addr(&self) -> usize {
        self.addr
    }

    /// The block's address.
    pub fn addr(&self) -> (r: usize)
        ensures
            r == self.spec_addr(),
    {
        self.addr
    }
}

/// A free list of blocks, kept as a stack: the last element is the head.
pub struct FreeBlockList {
    blocks: Vec<usize>,
}

impl View for FreeBlockList {
    type V = Seq<usize>;

    closed spec fn view(&self) -> Seq<usize> {
        self.blocks@
    }
}

proof fn lemma_block_in_range(start: usize, block_size: usize, num: usize, i: usize)
    requires
        block_size > 0,
        i < num,
        num * block_size <= usize::MAX - start,
    ensures
        start + i * block_size + block_size <= start + num * block_size,
{
    assert(i * block_size + block_size <= num * block_size) by (nonlinear_arith)
        requires
            i < num,
            block_size > 0,
    ;
}

impl FreeBlockList {
    /// The list of `num_of_blocks` blocks of `block_size` bytes from
    /// `start_addr`, with the block at `start_addr` as its head.
    pub fn new(start_addr: usize, block_size: usize, num_of_blocks: usize) -> (r: Self)
        requires
            block_size > 0,
            num_of_blocks * block_size <= usize::MAX - start_addr,
        ensures
            r@ == fresh_blocks(start_addr, block_size, num_of_blocks as nat),
    {
        let mut new_list = FreeBlockList::new_empty();
        let mut i: usize = num_of_blocks;
        while i > 0
            invariant
                i <= num_of_blocks,
                block_size > 0,
                num_of_blocks * block_size <= usize::MAX - start_addr,
                new_list@ == fresh_blocks(start_addr, block_size, num_of_blocks as nat).subrange(
                    0,
                    (num_of_blocks - i) as int,
                ),
            decreases i,
        {
            i = i - 1;
            proof {
                lemma_block_in_range(start_addr, block_size, num_of_blocks, i);
            }
            let addr = start_addr + i * block_size;
            new_list.push(FreeBlock { addr });
            proof {
                let f = fresh_blocks(start_addr, block_size, num_of_blocks as nat);
                assert(f[(num_of_blocks - 1 - i) as int] == addr);
                assert(new_list@ =~= f.subrange(0, (num_of_blocks - i) as int));
            }
        }
        proof {
            let f = fresh_blocks(start_addr, block_size, num_of_blocks as nat);
            assert(new_list@ =~= f);
        }
        new_list
    }

    /// The empty list.
    pub fn new_empty() -> (r: Self)
        ensures
            r@ == Seq::<usize>::empty(),
    {
        FreeBlockList { blocks: Vec::new() }
    }

    /// The number of blocks in the list.
    pub fn len(&self) -> (r: usize)
        ensures
            r == self@.len(),
    {
        self.blocks.len()
    }

    /// Takes the head of the list.
    pub fn pop(&mut self) -> (r: Option<FreeBlock>)
        ensures
            old(self)@.len() == 0 ==> r is None && final(self)@ == old(self)@,
            old(self)@.len() > 0 ==> (r matches Some(b) && b.spec_addr() == old(self)@.last()
                && final(self)@ == old(self)@.drop_last()),
    {
        match self.blocks.pop() {
            Some(addr) => Some(FreeBlock { addr }),
            None => None,
        }
    }

    /// Puts a block at the head of the list.
    pub fn push(&mut self, free_block: FreeBlock)
        ensures
            final(self)@ == old(self)@.push(free_block.spec_addr()),
    {
        self.blocks.push(free_block.addr);
    }

    /// Whether the list has no block.
    pub fn is_empty(&self) -> (r: bool)
        ensures
            r == (self@.len() == 0),
    {
        self.blocks.len() == 0
    }
}

/// A slab: blocks of one size and the list of those that are free.
pub struct Slab {
    block_size: usize,
    free_block_list: FreeBlockList,
}

impl View for Slab {
    type V = Seq<usize>;

    /// The free blocks; the last one is handed out first.
    closed spec fn view(&self) -> Seq<usize> {
        self.free_block_list@
    }
}

impl Slab {
    pub closed spec fn spec_block_size(&self) -> usize {
        self.block_size
    }

    /// A slab with no block.
    pub fn empty() -> (r: Slab)
        ensures
            r@ == Seq::<usize>::empty(),
            r.spec_block_size() == 0,
    {
        Slab { block_size: 0, free_block_list: FreeBlockList::new_empty() }
    }

    /// The slab of the blocks of `block_size` bytes that fit in
    /// `slab_size` bytes from `start_addr`, all free.
    pub fn new(start_addr: usize, slab_size: usize, block_size: usize) -> (r: Slab)
        requires
            block_size > 0,
            slab_size <= usize::MAX - start_addr,
        ensures
            r.spec_block_size() == block_size,
            r@ == fresh_blocks(start_addr, block_size, (slab_size / block_size) as nat),
    {
        let num_of_blocks = slab_size / block_size;
        proof {
            assert(num_of_blocks * block_size <= slab_size) by (nonlinear_arith)
                requires
                    num_of_blocks == slab_size / block_size,
                    block_size > 0,
            ;
        }
        Slab { block_size, free_block_list: FreeBlockList::new(start_addr, block_size, num_of_blocks) }
    }

    /// The number of blocks in the free list.
    pub fn used_blocks(&self) -> (r: usize)
        ensures
            r == self@.len(),
    {
        self.free_block_list.len()
    }

    /// Adds the blocks that fit in `slab_size` bytes from `start_addr` to
    /// the free list; the one at `start_addr` goes in first.
    pub fn grow(&mut self, start_addr: usize, slab_size: usize)
        requires
            old(self).spec_block_size() > 0,
            slab_size <= usize::MAX - start_addr,
        ensures
            final(self).spec_block_size() == old(self).spec_block_size(),
            final(self)@ == old(self)@ + ascending_blocks(
                start_addr,
                old(self).spec_block_size(),
                (slab_size / old(self).spec_block_size()) as nat,
            ),
    {
        let bs = self.block_size;
        let num_of_blocks = slab_size / bs;
        proof {
            assert(num_of_blocks * bs <= slab_size) by (nonlinear_arith)
                requires
                    num_of_blocks == slab_size / bs,
                    bs > 0,
            ;
        }
        let mut block_list = FreeBlockList::new(start_addr, bs, num_of_blocks);
        let ghost fresh = fresh_blocks(start_addr, bs, num_of_blocks as nat);
        let ghost asc = ascending_blocks(start_addr, bs, num_of_blocks as nat);
        let ghost old_view = self@;
        let mut k: usize = 0;
        while k < num_of_blocks
            invariant
                k <= num_of_blocks,
                self.block_size == bs,
                block_list@ == fresh.subrange(0, (num_of_blocks - k) as int),
                self@ == old_view + asc.subrange(0, k as int),
                fresh.len() == num_of_blocks,
                asc.len() == num_of_blocks,
                forall|j: int| 0 <= j < num_of_blocks ==> #[trigger] fresh[j] == asc[num_of_blocks - 1 - j],
            decreases num_of_blocks - k,
        {
            let b = block_list.pop();
            match b {
                Some(block) => {
                    self.free_block_list.push(block);
                    proof {
                        assert(fresh[(num_of_blocks - k - 1) as int] == asc[k as int]);
                        assert(self@ =~= old_view + asc.subrange(0, k + 1));
                        assert(block_list@ =~= fresh.subrange(0, (num_of_blocks - k - 1) as int));
                    }
                },
                None => {
                    proof {
                        assert(false);
                    }
                },
            }
            k = k + 1;
        }
        proof {
            assert(asc.subrange(0, num_of_blocks as int) =~= asc);
        }
    }

    /// Hands out the head of the free list, or 0 when the list is empty.
    pub fn allocate(&mut self, layout: Layout) -> (r: usize)
        ensures
            final(self).spec_block_size() == old(self).spec_block_size(),
            old(self)@.len() == 0 ==> r == 0 && final(self)@ == old(self)@,
            old(self)@.len() > 0 ==> r == old(self)@.last() && final(self)@ == old(self)@.drop_last(),
    {
        match self.free_block_list.pop() {
            Some(block) => block.addr(),
            None => 0,
        }
    }

    /// Gives the block at `ptr` back: it becomes the head of the free list.
    pub fn deallocate(&mut self, ptr: usize)
        ensures
            final(self).spec_block_size() == old(self).spec_block_size(),
            final(self)@ == old(self)@.push(ptr),
    {
        self.free_block_list.push(FreeBlock { addr: ptr });
    }
}

/// A heap: allocates and frees memory described by a `Layout`.
pub trait TraitHeap {
    /// The layouts the heap serves.
    spec fn accepts(&self, layout: Layout) -> bool;

    fn allocate(&mut self, layout: Layout) -> usize
        requires
            old(self).accepts(layout),
    ;

    fn deallocate(&mut self, ptr: usize, layout: Layout)
        requires
            old(self).accepts(layout),
    ;
}

/// Seven slabs, one per block size.
pub struct SlabAllocator {
    slab_64_bytes: Slab,
    slab_128_bytes: Slab,
    slab_256_bytes: Slab,
    slab_512_bytes: Slab,
    slab_1024_bytes: Slab,
    slab_2048_bytes: Slab,
    slab_4096_bytes: Slab,
}

impl SlabAllocator {
    /// The slab of class `c`.
    pub closed spec fn slab(&self, c: HeapAllocator) -> Slab {
        match c {
            HeapAllocator::Slab64Bytes => self.slab_64_bytes,
            HeapAllocator::Slab128Bytes => self.slab_128_bytes,
            HeapAllocator::Slab256Bytes => self.slab_256_bytes,
            HeapAllocator::Slab512Bytes => self.slab_512_bytes,
            HeapAllocator::Slab1024Bytes => self.slab_1024_bytes,
            HeapAllocator::Slab2048Bytes => self.slab_2048_bytes,
            HeapAllocator::Slab4096Bytes => self.slab_4096_bytes,
        }
    }

    /// Every slab but the one of class `c` is the same in `self` and `other`.
    pub open spec fn others_unchanged(&self, other: &SlabAllocator, c: HeapAllocator) -> bool {
        forall|d: HeapAllocator| d != c ==> #[trigger] other.slab(d) == self.slab(d)
    }

    /// An allocator with no memory.
    pub fn empty() -> (r: SlabAllocator)
        ensures
            forall|c: HeapAllocator| (#[trigger] r.slab(c))@ == Seq::<usize>::empty() && r.slab(c).spec_block_size()
                == 0,
    {
        SlabAllocator {
            slab_64_bytes: Slab::empty(),
            slab_128_bytes: Slab::empty(),
            slab_256_bytes: Slab::empty(),
            slab_512_bytes: Slab::empty(),
            slab_1024_bytes: Slab::empty(),
            slab_2048_bytes: Slab::empty(),
            slab_4096_bytes: Slab::empty(),
        }
    }

    /// Cuts `heap_size` bytes from `heap_start_addr` into eight equal slabs
    /// and gives the first seven, in order, to the block sizes 64 to 4096.
    pub fn new(heap_start_addr: usize, heap_size: usize) -> (r: SlabAllocator)
        requires
            heap_start_addr % 4096 == 0,
            heap_size >= MIN_HEAP_SIZE,
            heap_size % MIN_HEAP_SIZE == 0,
            heap_size <= usize::MAX - heap_start_addr,
        ensures
            forall|c: HeapAllocator| #[trigger] r.slab(c).spec_block_size() == class_block_size(c),
            forall|c: HeapAllocator| (#[trigger] r.slab(c))@ == fresh_blocks(
                (heap_start_addr + class_index(c) * (heap_size / NUM_OF_SLABS)) as usize,
                class_block_size(c),
                ((heap_size / NUM_OF_SLABS) / class_block_size(c)) as nat,
            ),
            forall|c: HeapAllocator| #[trigger] r.slab(c)@.len() == (heap_size / NUM_OF_SLABS) / class_block_size(c),
            forall|c: HeapAllocator, i: int|
                0 <= i < r.slab(c)@.len() ==> heap_start_addr <= #[trigger] r.slab(c)@[i] && r.slab(c)@[i]
                    + class_block_size(c) <= heap_start_addr + heap_size,
            forall|c: HeapAllocator, d: HeapAllocator, i: int, j: int|
                c != d && 0 <= i < r.slab(c)@.len() && 0 <= j < r.slab(d)@.len() ==> #[trigger] r.slab(c)@[i]
                    + class_block_size(c) <= #[trigger] r.slab(d)@[j] || r.slab(d)@[j] + class_block_size(d)
                    <= r.slab(c)@[i],
    {
        let slab_size = heap_size / NUM_OF_SLABS;
        assert(7 * slab_size + slab_size <= heap_size);
        let r = SlabAllocator {
            slab_64_bytes: Slab::new(heap_start_addr, slab_size, 64),
            slab_128_bytes: Slab::new(heap_start_addr + slab_size, slab_size, 128),
            slab_256_bytes: Slab::new(heap_start_addr + 2 * slab_size, slab_size, 256),
            slab_512_bytes: Slab::new(heap_start_addr + 3 * slab_size, slab_size, 512),
            slab_1024_bytes: Slab::new(heap_start_addr + 4 * slab_size, slab_size, 1024),
            slab_2048_bytes: Slab::new(heap_start_addr + 5 * slab_size, slab_size, 2048),
            slab_4096_bytes: Slab::new(heap_start_addr + 6 * slab_size, slab_size, 4096),
        };
        proof {
            let ss: int = (heap_size / NUM_OF_SLABS) as int;
            assert forall|c: HeapAllocator, i: int| 0 <= i < r.slab(c)@.len() implies heap_start_addr + class_index(
                c,
            ) * ss <= #[trigger] r.slab(c)@[i] && r.slab(c)@[i] + class_block_size(c) <= heap_start_addr
                + class_index(c) * ss + ss by {
                lemma_slabs_disjoint(heap_start_addr, heap_size, c, i);
            }
            assert forall|c: HeapAllocator, d: HeapAllocator, i: int, j: int|
                c != d && 0 <= i < r.slab(c)@.len() && 0 <= j < r.slab(d)@.len() implies #[trigger] r.slab(c)@[i]
                + class_block_size(c) <= #[trigger] r.slab(d)@[j] || r.slab(d)@[j] + class_block_size(d)
                <= r.slab(c)@[i] by {
                if class_index(c) < class_index(d) {
                    lemma_eighths_apart(class_index(c), class_index(d), ss);
                } else {
                    lemma_eighths_apart(class_index(d), class_index(c), ss);
                }
            }
        }
        r
    }

    /// The requested size and the block size of the slab that serves it.
    pub fn usable_size(&self, layout: &Layout) -> (r: (usize, usize))
        requires
            layout.spec_size() <= 4096,
        ensures
            r == (layout.spec_size(), class_block_size(spec_size_class(layout.spec_size(), layout.spec_align()))),
    {
        match SlabAllocator::layout_to_allocator(&layout) {
            HeapAllocator::Slab64Bytes => (layout.size(), 64),
            HeapAllocator::Slab128Bytes => (layout.size(), 128),
            HeapAllocator::Slab256Bytes => (layout.size(), 256),
            HeapAllocator::Slab512Bytes => (layout.size(), 512),
            HeapAllocator::Slab1024Bytes => (layout.size(), 1024),
            HeapAllocator::Slab2048Bytes => (layout.size(), 2048),
            HeapAllocator::Slab4096Bytes => (layout.size(), 4096),
        }
    }

    /// The slab that serves `layout`.
    pub fn layout_to_allocator(layout: &Layout) -> (r: HeapAllocator)
        requires
            layout.spec_size() <= 4096,
        ensures
            r == spec_size_class(layout.spec_size(), layout.spec_align()),
    {
        if layout.size() <= 64 && layout.align() <= 64 {
            HeapAllocator::Slab64Bytes
        } else if layout.size() <= 128 && layout.align() <= 128 {
            HeapAllocator::Slab128Bytes
        } else if layout.size() <= 256 && layout.align() <= 256 {
            HeapAllocator::Slab256Bytes
        } else if layout.size() <= 512 && layout.align() <= 512 {
            HeapAllocator::Slab512Bytes
        } else if layout.size() <= 1024 && layout.align() <= 1024 {
            HeapAllocator::Slab1024Bytes
        } else if layout.size() <= 2048 && layout.align() <= 2048 {
            HeapAllocator::Slab2048Bytes
        } else {
            HeapAllocator::Slab4096Bytes
        }
    }
}

/// The position of a slab in the heap: 0 for 64 bytes up to 6 for 4096.
pub open spec fn class_index(c: HeapAllocator) -> int {
    match c {
        HeapAllocator::Slab64Bytes => 0,
        HeapAllocator::Slab128Bytes => 1,
        HeapAllocator::Slab256Bytes => 2,
        HeapAllocator::Slab512Bytes => 3,
        HeapAllocator::Slab1024Bytes => 4,
        HeapAllocator::Slab2048Bytes => 5,
        HeapAllocator::Slab4096Bytes => 6,
    }
}

impl TraitHeap for SlabAllocator {
    open spec fn accepts(&self, layout: Layout) -> bool {
        layout.spec_size() <= 4096
    }

    /// Hands out the head of the free list of the slab that serves
    /// `layout`, or 0 when that slab has no free block.
    fn allocate(&mut self, layout: Layout) -> (r: usize)
        ensures
            ({
                let c = spec_size_class(layout.spec_size(), layout.spec_align());
                let s = old(self).slab(c)@;
                &&& final(self).others_unchanged(old(self), c)
                &&& final(self).slab(c).spec_block_size() == old(self).slab(c).spec_block_size()
                &&& s.len() == 0 ==> r == 0 && final(self).slab(c)@ == s
                &&& s.len() > 0 ==> r == s.last() && final(self).slab(c)@ == s.drop_last()
            }),
    {
        match SlabAllocator::layout_to_allocator(&layout) {
            HeapAllocator::Slab64Bytes => self.slab_64_bytes.allocate(layout),
            HeapAllocator::Slab128Bytes => self.slab_128_bytes.allocate(layout),
            HeapAllocator::Slab256Bytes => self.slab_256_bytes.allocate(layout),
            HeapAllocator::Slab512Bytes => self.slab_512_bytes.allocate(layout),
            HeapAllocator::Slab1024Bytes => self.slab_1024_bytes.allocate(layout),
            HeapAllocator::Slab2048Bytes => self.slab_2048_bytes.allocate(layout),
            HeapAllocator::Slab4096Bytes => self.slab_4096_bytes.allocate(layout),
        }
    }

    /// Gives the block at `ptr` back to the slab that serves `layout`.
    fn deallocate(&mut self, ptr: usize, layout: Layout)
        ensures
            ({
                let c = spec_size_class(layout.spec_size(), layout.spec_align());
                &&& final(self).others_unchanged(old(self), c)
                &&& final(self).slab(c).spec_block_size() == old(self).slab(c).spec_block_size()
                &&& final(self).slab(c)@ == old(self).slab(c)@.push(ptr)
            }),
    {
        match SlabAllocator::layout_to_allocator(&layout) {
            HeapAllocator::Slab64Bytes => self.slab_64_bytes.deallocate(ptr),
            HeapAllocator::Slab128Bytes => self.slab_128_bytes.deallocate(ptr),
            HeapAllocator::Slab256Bytes => self.slab_256_bytes.deallocate(ptr),
            HeapAllocator::Slab512Bytes => self.slab_512_bytes.deallocate(ptr),
            HeapAllocator::Slab1024Bytes => self.slab_1024_bytes.deallocate(ptr),
            HeapAllocator::Slab2048Bytes => self.slab_2048_bytes.deallocate(ptr),
            HeapAllocator::Slab4096Bytes => self.slab_4096_bytes.deallocate(ptr),
        }
    }
}

/// Every request of at most 4096 bytes goes to a slab whose blocks are large
/// enough for it, and to the smallest such slab that also meets its
/// alignment; only the 4096-byte slab may get an alignment above its block
/// size.
pub proof fn lemma_size_class_fits(size: usize, align: usize)
    requires
        size <= 4096,
    ensures
        size <= class_block_size(spec_size_class(size, align)),
        align <= class_block_size(spec_size_class(size, align)) || spec_size_class(size, align)
            == HeapAllocator::Slab4096Bytes,
        forall|c: HeapAllocator|
            class_block_size(c) < class_block_size(spec_size_class(size, align)) ==> size
                > #[trigger] class_block_size(c) || align > class_block_size(c),
{
}

/// A fresh slab hands out its blocks from the lowest address up: after `k`
/// allocations (each takes the last block of the free list) the free list
/// is the first `num - k` blocks, the next allocation returns the block at
/// `start + k * block_size` and leaves the first `num - k - 1`; after `num`
/// allocations the list is empty and allocations give 0.
pub proof fn lemma_fresh_blocks_in_order(start: usize, block_size: usize, num: nat, k: nat)
    requires
        k <= num,
    ensures
        fresh_blocks(start, block_size, num).subrange(0, num - k).len() == num - k,
        k < num ==> fresh_blocks(start, block_size, num).subrange(0, num - k).last() == (start + k
            * block_size) as usize,
        k < num ==> fresh_blocks(start, block_size, num).subrange(0, num - k).drop_last() == fresh_blocks(
            start,
            block_size,
            num,
        ).subrange(0, num - (k + 1)),
        fresh_blocks(start, block_size, num).subrange(0, num - num) == Seq::<usize>::empty(),
{
    let f = fresh_blocks(start, block_size, num);
    if k < num {
        assert(f.subrange(0, num - k).drop_last() =~= f.subrange(0, num - (k + 1)));
    }
    assert(f.subrange(0, num - num) =~= Seq::<usize>::empty());
}

/// The blocks of a fresh slab are distinct, lie inside the slab and are
/// `block_size` apart from its start.
pub proof fn lemma_fresh_blocks_distinct(start: usize, block_size: usize, num: nat)
    requires
        block_size > 0,
        num * block_size <= usize::MAX - start,
    ensures
        fresh_blocks(start, block_size, num).no_duplicates(),
        forall|i: int|
            0 <= i < num ==> start <= #[trigger] fresh_blocks(start, block_size, num)[i] && fresh_blocks(
                start,
                block_size,
                num,
            )[i] + block_size <= start + num * block_size && (fresh_blocks(start, block_size, num)[i] - start)
                % (block_size as int) == 0,
{
    let f = fresh_blocks(start, block_size, num);
    assert forall|i: int| 0 <= i < num implies start <= #[trigger] f[i] && f[i] + block_size <= start + num
        * block_size && (f[i] - start) % (block_size as int) == 0 by {
        let k = num - 1 - i;
        assert(0 <= k * block_size && k * block_size + block_size <= num * block_size) by (nonlinear_arith)
            requires
                0 <= k < num,
                block_size > 0,
        ;
        assert((k * block_size) % (block_size as int) == 0) by (nonlinear_arith)
            requires
                block_size > 0,
                k >= 0,
        ;
        assert(f[i] == start + k * block_size);
    }
    assert forall|i: int, j: int| 0 <= i < num && 0 <= j < num && i != j implies f[i] != f[j] by {
        let ki = num - 1 - i;
        let kj = num - 1 - j;
        assert(ki * block_size != kj * block_size) by (nonlinear_arith)
            requires
                ki != kj,
                block_size > 0,
        ;
        assert(0 <= ki * block_size && ki * block_size + block_size <= num * block_size) by (nonlinear_arith)
            requires
                0 <= ki < num,
                block_size > 0,
        ;
        assert(0 <= kj * block_size && kj * block_size + block_size <= num * block_size) by (nonlinear_arith)
            requires
                0 <= kj < num,
                block_size > 0,
        ;
    }
}

/// The slabs of a new allocator do not overlap: each block of the slab of
/// class `c` lies inside the `c`-th eighth of the heap.
pub proof fn lemma_slabs_disjoint(heap_start_addr: usize, heap_size: usize, c: HeapAllocator, i: int)
    requires
        heap_size <= usize::MAX - heap_start_addr,
        0 <= i < (heap_size / NUM_OF_SLABS) / class_block_size(c),
    ensures
        ({
            let ss = heap_size / NUM_OF_SLABS;
            let base = heap_start_addr + class_index(c) * ss;
            let b = fresh_blocks(base as usize, class_block_size(c), (ss / class_block_size(c)) as nat)[i];
            base <= b && b + class_block_size(c) <= base + ss
        }),
{
    let ss = heap_size / NUM_OF_SLABS;
    let bs = class_block_size(c);
    let n = ss / bs;
    let base = heap_start_addr + class_index(c) * ss;
    assert(n * bs <= ss) by (nonlinear_arith)
        requires
            n == ss / bs,
            bs > 0,
    ;
    assert(7 * ss <= heap_size);
    let k = n - 1 - i;
    assert(0 <= k * bs && k * bs + bs <= n * bs) by (nonlinear_arith)
        requires
            0 <= k < n,
            bs > 0,
    ;
}

/// The eighth of the heap at position `k` ends where the one at a later
/// position `l` may start.
proof fn lemma_eighths_apart(k: int, l: int, ss: int)
    requires
        0 <= k < l,
        ss >= 0,
    ensures
        k * ss + ss <= l * ss,
{
    assert(k * ss + ss <= l * ss) by (nonlinear_arith)
        requires
            k + 1 <= l,
            ss >= 0,
    ;
}

/// A block given back is the next one handed out, and the free list is then
/// as it was before.
pub proof fn lemma_free_then_allocate(s: Seq<usize>, ptr: usize)
    ensures
        s.push(ptr).last() == ptr,
        s.push(ptr).drop_last() == s,
{
    assert(s.push(ptr).drop_last() =~= s);
}

/// A block handed out from a free list without repeated blocks is no longer
/// in it, and giving back a block that is not in it keeps it without
/// repeated blocks.
pub proof fn lemma_no_double_allocation(s: Seq<usize>, ptr: usize)
    requires
        s.no_duplicates(),
    ensures
        s.len() > 0 ==> !s.drop_last().contains(s.last()) && s.drop_last().no_duplicates(),
        !s.contains(ptr) ==> s.push(ptr).no_duplicates(),
{
    if s.len() > 0 {
        let t = s.drop_last();
        if t.contains(s.last()) {
            let j = choose|j: int| 0 <= j < t.len() && t[j] == s.last();
            assert(s[j] == s[s.len() - 1]);
        }
    }
    if !s.contains(ptr) {
        let u = s.push(ptr);
        assert forall|i: int, j: int| 0 <= i < u.len() && 0 <= j < u.len() && i != j implies u[i] != u[j] by {
            if i < s.len() && j < s.len() {
            } else if i == s.len() {
                assert(s[j] == u[j]);
            } else {
                assert(s[i] == u[i]);
            }
        }
    }
}

} // verus!
