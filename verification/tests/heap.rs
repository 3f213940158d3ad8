use violet::kernel::heap::minimum_allocator::{calc_align, MinimumAllocator};
use violet::kernel::heap::operator::HeapOperator;
use violet::kernel::heap::slab::{
    FreeBlockList, HeapAllocator, Layout, Slab, SlabAllocator, TraitHeap, MIN_HEAP_SIZE,
};

const HEAP: usize = 0x8100_0000;

#[test]
fn slab_layout_to_allocator() {
    let cases = [
        (1, 1, HeapAllocator::Slab64Bytes),
        (64, 8, HeapAllocator::Slab64Bytes),
        (65, 8, HeapAllocator::Slab128Bytes),
        (8, 128, HeapAllocator::Slab128Bytes),
        (200, 8, HeapAllocator::Slab256Bytes),
        (512, 512, HeapAllocator::Slab512Bytes),
        (513, 4, HeapAllocator::Slab1024Bytes),
        (2048, 2048, HeapAllocator::Slab2048Bytes),
        (2049, 1, HeapAllocator::Slab4096Bytes),
        (4096, 4096, HeapAllocator::Slab4096Bytes),
        (16, 8192, HeapAllocator::Slab4096Bytes),
    ];
    for (size, align, class) in cases {
        assert_eq!(SlabAllocator::layout_to_allocator(&Layout::new(size, align)), class, "{} {}", size, align);
    }
}

#[test]
fn slab_usable_size() {
    let heap = SlabAllocator::empty();
    assert_eq!(heap.usable_size(&Layout::new(100, 8)), (100, 128));
    assert_eq!(heap.usable_size(&Layout::new(3000, 8)), (3000, 4096));
    assert_eq!(heap.usable_size(&Layout::new(1, 1)), (1, 64));
}

#[test]
fn slab_allocator_hands_out_blocks_in_order() {
    let mut heap = SlabAllocator::new(HEAP, MIN_HEAP_SIZE);
    let slab_size = MIN_HEAP_SIZE / 8;
    let l64 = Layout::new(16, 8);
    assert_eq!(heap.allocate(l64), HEAP);
    assert_eq!(heap.allocate(l64), HEAP + 64);
    let l4k = Layout::new(4000, 4096);
    assert_eq!(heap.allocate(l4k), HEAP + 6 * slab_size);
    // 4096-byte slab of one slab size (4096 bytes) has one block only.
    assert_eq!(heap.allocate(l4k), 0);
    let l256 = Layout::new(256, 8);
    assert_eq!(heap.allocate(l256), HEAP + 2 * slab_size);
}

#[test]
fn slab_free_then_allocate_gives_back_the_block() {
    let mut heap = SlabAllocator::new(HEAP, MIN_HEAP_SIZE);
    let l = Layout::new(100, 8);
    let a = heap.allocate(l);
    let b = heap.allocate(l);
    assert_ne!(a, b);
    heap.deallocate(a, l);
    assert_eq!(heap.allocate(l), a);
    heap.deallocate(b, l);
    heap.deallocate(a, l);
    assert_eq!(heap.allocate(l), a);
    assert_eq!(heap.allocate(l), b);
}

#[test]
fn slab_no_double_allocation() {
    let mut heap = SlabAllocator::new(HEAP, 2 * MIN_HEAP_SIZE);
    let l = Layout::new(512, 512);
    let mut seen = Vec::new();
    loop {
        let p = heap.allocate(l);
        if p == 0 {
            break;
        }
        assert!(!seen.contains(&p));
        assert_eq!(p % 512, 0);
        seen.push(p);
    }
    assert_eq!(seen.len(), (2 * MIN_HEAP_SIZE / 8) / 512);
}

#[test]
fn slab_empty_allocator_gives_zero() {
    let mut heap = SlabAllocator::empty();
    assert_eq!(heap.allocate(Layout::new(8, 8)), 0);
}

#[test]
fn slab_grow_and_blocks() {
    let mut slab = Slab::new(0x1000, 0x100, 0x40);
    assert_eq!(slab.used_blocks(), 4);
    slab.grow(0x2000, 0x80);
    assert_eq!(slab.used_blocks(), 6);
    let l = Layout::new(8, 8);
    assert_eq!(slab.allocate(l), 0x2040);
    assert_eq!(slab.allocate(l), 0x2000);
    assert_eq!(slab.allocate(l), 0x1000);
    assert_eq!(slab.allocate(l), 0x1040);
    slab.deallocate(0x1000);
    assert_eq!(slab.allocate(l), 0x1000);
    let mut e = Slab::empty();
    assert_eq!(e.allocate(l), 0);
    assert_eq!(e.used_blocks(), 0);
}

#[test]
fn free_block_list() {
    let mut list = FreeBlockList::new(0x100, 0x10, 3);
    assert_eq!(list.len(), 3);
    assert_eq!(list.pop().map(|b| b.addr()), Some(0x100));
    assert_eq!(list.pop().map(|b| b.addr()), Some(0x110));
    let b = list.pop().expect("third block");
    assert_eq!(b.addr(), 0x120);
    assert!(list.is_empty());
    assert!(list.pop().is_none());
    list.push(b);
    assert_eq!(list.len(), 1);
    assert!(FreeBlockList::new_empty().is_empty());
}

#[test]
fn calc_align_rounds_up() {
    assert_eq!(calc_align(0, 8), 0);
    assert_eq!(calc_align(1, 8), 8);
    assert_eq!(calc_align(8, 8), 8);
    assert_eq!(calc_align(0x1001, 0x1000), 0x2000);
    assert_eq!(calc_align(5, 1), 5);
}

#[test]
fn minimum_allocator_bumps() {
    let mut m = MinimumAllocator::new(0x1001, 0x1100);
    assert_eq!(m.allocate(Layout::new(0x10, 0x10)), 0x1010);
    assert_eq!(m.allocate(Layout::new(0x8, 0x8)), 0x1020);
    // Does not fit: 0 and nothing taken.
    assert_eq!(m.allocate(Layout::new(0x100, 0x10)), 0);
    assert_eq!(m.allocate(Layout::new(0x20, 0x20)), 0x1040);
    m.deallocate(0x1010, Layout::new(0x10, 0x10));
    assert_eq!(m.allocate(Layout::new(0xa0, 0x20)), 0x1060);
    assert_eq!(m.allocate(Layout::new(1, 1)), 0);
}

#[test]
fn heap_operator_new() {
    let _op = HeapOperator::new();
}

#[test]
fn layout_accessors() {
    let l = Layout::new(24, 8);
    assert_eq!(l.size(), 24);
    assert_eq!(l.align(), 8);
}
