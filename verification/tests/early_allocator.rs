use bump_allocators::AllocError;
use bump_allocators::early::EarlyAllocator;

const PAGE_SIZE: usize = 4096;

fn initialized(start: usize, size: usize) -> EarlyAllocator<PAGE_SIZE> {
    let mut a = EarlyAllocator::<PAGE_SIZE>::new();
    a.init(start, size);
    a
}

#[test]
fn fresh_allocator_is_all_zero() {
    let a = EarlyAllocator::<PAGE_SIZE>::new();
    assert_eq!(a.start, 0);
    assert_eq!(a.end, 0);
    assert_eq!(a.b_pos, 0);
    assert_eq!(a.p_pos, 0);
}

#[test]
fn init_makes_everything_available() {
    let a = initialized(0x1000, 0x20000);
    assert_eq!(a.used_bytes(), 0);
    assert_eq!(a.total_bytes(), 0x20000);
    assert_eq!(a.available_bytes(), 0x20000);
    assert_eq!(a.used_pages(), 0);
}

#[test]
fn byte_then_page_allocation_scenario() {
    let mut a = initialized(0x1000, 0x20000);
    assert_eq!(a.allocate(64, 1), Ok(0x1000));
    assert_eq!(a.used_bytes(), 64);
    assert_eq!(a.alloc_pages(1, 1), Ok(0x1000 + 0x20000 - 4096));
    assert_eq!(a.used_pages(), 4096);
}

#[test]
fn byte_allocations_stay_in_region_and_never_overlap() {
    let start: usize = 0x1000;
    let size: usize = 0x800;
    let mut a = initialized(start, size);
    let sizes = [16usize, 1, 0, 250, 3];
    let mut prev_end = start;
    for s in sizes {
        let addr = a.allocate(s, 1).unwrap();
        assert!(addr >= start);
        assert!(addr + s < start + size);
        assert!(addr >= prev_end);
        prev_end = addr + s;
    }
}

#[test]
fn lifo_dealloc_returns_used_bytes_to_zero() {
    let mut a = initialized(0x1000, 0x1000);
    let a1 = a.allocate(10, 1).unwrap();
    let a2 = a.allocate(20, 1).unwrap();
    assert_eq!(a.used_bytes(), 30);
    a.dealloc(a2, 20, 1);
    a.dealloc(a1, 10, 1);
    assert_eq!(a.used_bytes(), 0);
}

#[test]
fn non_lifo_dealloc_corrupts_the_byte_cursor() {
    // Freeing the first block while the second is still live steps the
    // cursor back over the live block: the next allocation is handed an
    // address inside it. LIFO order is required; any other order corrupts.
    let mut a = initialized(0x1000, 0x1000);
    let a1 = a.allocate(10, 1).unwrap();
    let a2 = a.allocate(20, 1).unwrap();
    a.dealloc(a1, 10, 1);
    assert_eq!(a.used_bytes(), 20);
    let a3 = a.allocate(4, 1).unwrap();
    assert!(a3 >= a2 && a3 + 4 <= a2 + 20, "new block lands inside the live one");
}

#[test]
fn dealloc_pages_is_unsupported_and_restores_nothing() {
    let mut a = initialized(0x1000, 0x20000);
    let before = a.available_pages();
    let addr = a.alloc_pages(2, 1).unwrap();
    let after_alloc = a.available_pages();
    assert_eq!(after_alloc, before - 2 * 4096);
    // Reclaiming pages is a fatal design gap, surfaced as an explicit error:
    // available_pages is not restored.
    assert_eq!(a.dealloc_pages(addr, 2), Err(AllocError::Unsupported));
    assert_eq!(a.available_pages(), after_alloc);
}

#[test]
fn add_memory_is_unsupported() {
    let mut a = initialized(0x1000, 0x20000);
    let snapshot = a;
    assert_eq!(a.add_memory(0x40000, 0x1000), Err(AllocError::Unsupported));
    assert_eq!(a, snapshot);
}

#[test]
fn oversized_byte_request_fails_and_changes_nothing() {
    let mut a = initialized(0x1000, 0x2000);
    a.allocate(100, 1).unwrap();
    let snapshot = a;
    let avail = a.available_bytes();
    assert_eq!(a.allocate(avail + 1, 1), Err(AllocError::NoMemory));
    assert_eq!(a, snapshot);
}

#[test]
fn exact_fit_byte_request_fails_one_byte_of_slack_is_kept() {
    let mut a = initialized(0x1000, 0x2000);
    let avail = a.available_bytes();
    assert_eq!(a.allocate(avail, 1), Err(AllocError::NoMemory));
    assert_eq!(a.allocate(avail - 1, 1), Ok(0x1000));
    assert_eq!(a.available_bytes(), 1);
}

#[test]
fn oversized_page_request_fails_and_changes_nothing() {
    let mut a = initialized(0x1000, 0x2000);
    let snapshot = a;
    assert_eq!(a.alloc_pages(2, 1), Err(AllocError::NoMemory));
    assert_eq!(a, snapshot);
    // A page count whose byte size overflows the address space fails too.
    assert_eq!(a.alloc_pages(usize::MAX, 1), Err(AllocError::NoMemory));
    assert_eq!(a, snapshot);
}

#[test]
fn page_totals_track_both_cursors() {
    let mut a = initialized(0, 0x10000);
    assert_eq!(a.allocate(8, 1), Ok(0));
    assert_eq!(a.alloc_pages(3, 1), Ok(0x10000 - 3 * 4096));
    assert_eq!(a.total_pages(), 0x10000 - 8);
    assert_eq!(a.used_pages(), 3 * 4096);
    assert_eq!(a.available_pages(), 0x10000 - 3 * 4096 - 8);
    assert_eq!(a.total_bytes(), 0x10000 - 3 * 4096);
}
