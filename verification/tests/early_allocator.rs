use bump_allocator::{AllocError, EarlyAllocator};

const PAGE: usize = 0x1000;

#[test]
fn new_manages_nothing() {
    let mut a = EarlyAllocator::<PAGE>::new();
    assert_eq!(a.total_bytes(), 0);
    assert_eq!(a.used_bytes(), 0);
    assert_eq!(a.available_bytes(), 0);
    assert_eq!(a.byte_alloc_count(), 0);
    assert_eq!(a.total_pages(), 0);
    assert_eq!(a.alloc_bytes(1, 1), Err(AllocError::NoMemory));
}

#[test]
fn init_counts() {
    let mut a = EarlyAllocator::<PAGE>::new();
    a.init(0x1000, 0x10000);
    assert_eq!(a.total_bytes(), 0x10000);
    assert_eq!(a.used_bytes(), 0);
    assert_eq!(a.available_bytes(), 0x10000);
    assert_eq!(a.total_pages(), 16);
    assert_eq!(a.used_pages(), 0);
    assert_eq!(a.available_pages(), 16);
}

#[test]
fn byte_alloc_rounds_up_to_alignment() {
    let mut a = EarlyAllocator::<PAGE>::new();
    a.init(0x1001, 0x1000);
    let addr = a.alloc_bytes(4, 8).unwrap();
    assert_eq!(addr, 0x1008);
    assert_eq!(addr % 8, 0);
    assert_eq!(a.used_bytes(), 0x100c - 0x1001);
    assert_eq!(a.byte_alloc_count(), 1);
}

#[test]
fn lifo_release() {
    let mut a = EarlyAllocator::<PAGE>::new();
    a.init(0x1000, 0x100);
    let first = a.alloc_bytes(8, 1).unwrap();
    let second = a.alloc_bytes(8, 1).unwrap();
    assert_eq!(first, 0x1000);
    assert_eq!(second, 0x1008);
    assert_eq!(a.used_bytes(), 16);

    // `first` is not on top of the byte zone: releasing it reclaims nothing
    a.dealloc(first, 8);
    assert_eq!(a.used_bytes(), 16);

    // releasing in reverse order reclaims both blocks
    a.dealloc(second, 8);
    assert_eq!(a.used_bytes(), 8);
    a.dealloc(first, 8);
    assert_eq!(a.used_bytes(), 0);
}

#[test]
fn release_of_foreign_block_is_noop() {
    let mut a = EarlyAllocator::<PAGE>::new();
    a.init(0x1000, 0x100);
    let addr = a.alloc_bytes(8, 1).unwrap();
    a.dealloc(0x2000, 8);
    a.dealloc(addr, 4);
    assert_eq!(a.used_bytes(), 8);
}

#[test]
fn byte_exhaustion_fails_and_preserves_state() {
    let mut a = EarlyAllocator::<PAGE>::new();
    a.init(0x1000, 0x10);
    assert_eq!(a.alloc_bytes(0x11, 1), Err(AllocError::NoMemory));
    assert_eq!(a.used_bytes(), 0);
    assert_eq!(a.available_bytes(), 0x10);
    assert_eq!(a.byte_alloc_count(), 0);
    assert_eq!(a.alloc_bytes(0x10, 1), Ok(0x1000));
    assert_eq!(a.available_bytes(), 0);
}

#[test]
fn byte_alloc_overflow_fails() {
    let mut a = EarlyAllocator::<PAGE>::new();
    a.init(usize::MAX - 31, 31);
    // rounding the byte cursor up to 64 would overflow the address space
    assert_eq!(a.alloc_bytes(0x10, 64), Err(AllocError::NoMemory));
    assert_eq!(a.used_bytes(), 0);
}

#[test]
fn page_alloc_scenario() {
    let mut a = EarlyAllocator::<PAGE>::new();
    a.init(0x1000, 0x10000);
    assert_eq!(a.alloc_bytes(16, 8), Ok(0x1000));
    assert_eq!(a.used_bytes(), 16);
    // the page cursor moves from 0x11000 down to 0xF000
    assert_eq!(a.alloc_pages(2, 0x1000), Ok(0xF000));
    assert_eq!(a.used_pages(), 2);
    assert_eq!(a.available_bytes(), 0xF000 - 0x1010);
}

#[test]
fn page_alloc_addresses_are_page_aligned() {
    let mut a = EarlyAllocator::<PAGE>::new();
    a.init(0x1000, 0x10800);
    // the region's end is not page-aligned; an allocation aligned to one
    // whole page still comes back page-aligned
    let addr = a.alloc_pages(1, PAGE).unwrap();
    assert_eq!(addr, 0x10000);
    assert_eq!(addr % PAGE, 0);
    assert_eq!(a.used_pages(), 1);
}

#[test]
fn page_alloc_rounds_down_to_coarser_alignment() {
    let mut a = EarlyAllocator::<PAGE>::new();
    a.init(0x1000, 0xF000);
    let addr = a.alloc_pages(1, 0x2000).unwrap();
    assert_eq!(addr, 0xE000);
    assert_eq!(addr % 0x2000, 0);
    // rounding down swallowed the bytes between 0xE000 and 0x10000
    assert_eq!(a.used_pages(), 2);
}

#[test]
fn page_exhaustion_fails_and_preserves_state() {
    let mut a = EarlyAllocator::<PAGE>::new();
    a.init(0x1000, 0x2000);
    assert_eq!(a.available_pages(), 2);
    assert_eq!(a.alloc_pages(3, 1), Err(AllocError::NoMemory));
    assert_eq!(a.used_pages(), 0);
    assert_eq!(a.available_bytes(), 0x2000);
    assert_eq!(a.alloc_pages(2, 1), Ok(0x1000));
    assert_eq!(a.available_bytes(), 0);
}

#[test]
fn page_count_overflow_fails() {
    let mut a = EarlyAllocator::<PAGE>::new();
    a.init(0x1000, 0x10000);
    assert_eq!(a.alloc_pages(usize::MAX, 1), Err(AllocError::NoMemory));
    assert_eq!(a.used_pages(), 0);
    assert_eq!(a.available_bytes(), 0x10000);
}

#[test]
fn dealloc_pages_reclaims_nothing() {
    let mut a = EarlyAllocator::<PAGE>::new();
    a.init(0x1000, 0x10000);
    let addr = a.alloc_pages(3, 1).unwrap();
    a.dealloc_pages(addr, 3);
    assert_eq!(a.used_pages(), 3);
    assert_eq!(a.available_pages(), 13);
}

#[test]
fn add_memory_always_fails_without_mutating() {
    let mut a = EarlyAllocator::<PAGE>::new();
    a.init(0x1000, 0x10000);
    a.alloc_bytes(8, 1).unwrap();
    a.alloc_pages(1, 1).unwrap();
    let used: usize = a.used_bytes();
    assert_eq!(a.add_memory(0x20000, 0x10000), Err(AllocError::NoMemory));
    assert_eq!(a.used_bytes(), used);
    assert_eq!(a.total_bytes(), 0x10000);
    assert_eq!(a.byte_alloc_count(), 1);
}

#[test]
fn check_space_probes_both_zones() {
    let mut a = EarlyAllocator::<PAGE>::new();
    a.init(0x1000, 0x100);
    assert!(a.check_space(0x100, true));
    assert!(!a.check_space(0x101, true));
    assert!(a.check_space(0x100, false));
    assert!(!a.check_space(0x101, false));
}

#[test]
fn byte_alloc_count_tracks_successes_only() {
    let mut a = EarlyAllocator::<PAGE>::new();
    a.init(0x1000, 0x10);
    assert_eq!(a.byte_alloc_count(), 0);
    let addr = a.alloc_bytes(8, 1).unwrap();
    assert_eq!(a.byte_alloc_count(), 1);
    assert_eq!(a.alloc_bytes(0x10, 1), Err(AllocError::NoMemory));
    assert_eq!(a.byte_alloc_count(), 1);
    // releasing does not decrement the count
    a.dealloc(addr, 8);
    assert_eq!(a.byte_alloc_count(), 1);
}

#[test]
fn empty_region_serves_only_empty_requests() {
    let mut a = EarlyAllocator::<PAGE>::new();
    a.init(0x1000, 0);
    assert_eq!(a.total_bytes(), 0);
    assert_eq!(a.alloc_bytes(1, 1), Err(AllocError::NoMemory));
    assert_eq!(a.alloc_bytes(0, 1), Ok(0x1000));
    assert_eq!(a.used_bytes(), 0);
}
