use ad9361_rs::{AllocError, Address, HeapAllocator};

#[test]
fn small_requests_use_the_scratchpad() {
    let mut heap = HeapAllocator::new(100);
    for size in 0..8 {
        assert_eq!(heap.allocate(size), Ok(Address::Scratchpad));
        assert_eq!(heap.allocate(size), Err(AllocError::ScratchpadBusy));
        heap.free(Address::Scratchpad);
    }
    assert_eq!(heap.cursor(), 0);
}

#[test]
fn heap_requests_advance_by_words() {
    let mut heap = HeapAllocator::new(100);
    assert_eq!(heap.allocate(8), Ok(Address::Heap(0)));
    assert_eq!(heap.allocate(9), Ok(Address::Heap(2)));
    assert_eq!(heap.allocate(12), Ok(Address::Heap(5)));
    assert_eq!(heap.allocate(13), Ok(Address::Heap(8)));
    assert_eq!(heap.cursor(), 12);
    // the scratchpad is independent of the heap
    assert_eq!(heap.allocate(4), Ok(Address::Scratchpad));
    assert_eq!(heap.cursor(), 12);
}

#[test]
fn release_all_resets_the_heap() {
    let mut heap = HeapAllocator::new(10);
    assert_eq!(heap.allocate(16), Ok(Address::Heap(0)));
    assert_eq!(heap.allocate(16), Ok(Address::Heap(4)));
    heap.free(Address::Heap(0));
    assert_eq!(heap.cursor(), 0);
    heap.free(Address::Heap(0));
    assert_eq!(heap.cursor(), 0);
    assert_eq!(heap.allocate(40), Ok(Address::Heap(0)));
    assert_eq!(heap.cursor(), 10);
}

#[test]
fn release_last_rewinds() {
    let mut heap = HeapAllocator::new(10);
    assert_eq!(heap.allocate(8), Ok(Address::Heap(0)));
    assert_eq!(heap.allocate(20), Ok(Address::Heap(2)));
    heap.free(Address::Heap(2));
    assert_eq!(heap.cursor(), 2);
    assert_eq!(heap.allocate(8), Ok(Address::Heap(2)));
}

#[test]
fn other_releases_change_nothing() {
    let mut heap = HeapAllocator::new(20);
    assert_eq!(heap.allocate(8), Ok(Address::Heap(0)));
    assert_eq!(heap.allocate(8), Ok(Address::Heap(2)));
    assert_eq!(heap.allocate(8), Ok(Address::Heap(4)));
    assert_eq!(heap.allocate(2), Ok(Address::Scratchpad));
    heap.free(Address::Heap(2));
    heap.free(Address::Heap(5));
    heap.free(Address::Null);
    heap.free(Address::Foreign);
    assert_eq!(heap.cursor(), 6);
    assert!(heap.scratchpad_taken());
}

#[test]
fn exhaustion_is_refused() {
    let mut heap = HeapAllocator::new(4);
    assert_eq!(heap.allocate(17), Err(AllocError::HeapExhausted));
    assert_eq!(heap.cursor(), 0);
    assert_eq!(heap.allocate(16), Ok(Address::Heap(0)));
    assert_eq!(heap.allocate(8), Err(AllocError::HeapExhausted));
    assert_eq!(heap.cursor(), 4);
    assert_eq!(heap.capacity(), 4);
}

#[test]
fn zeroed_requests() {
    let mut heap = HeapAllocator::new(10);
    assert_eq!(heap.allocate_zeroed(3, 4), Ok((Address::Heap(0), 12)));
    assert_eq!(heap.allocate_zeroed(1, 3), Ok((Address::Scratchpad, 3)));
    assert_eq!(heap.allocate_zeroed(usize::MAX, 2), Err(AllocError::HeapExhausted));
    assert_eq!(heap.allocate_zeroed(7, 4), Ok((Address::Heap(3), 28)));
    assert_eq!(heap.allocate_zeroed(1, 8), Err(AllocError::HeapExhausted));
}

#[test]
fn init_forgets_everything() {
    let mut heap = HeapAllocator::new(10);
    assert_eq!(heap.allocate(2), Ok(Address::Scratchpad));
    assert_eq!(heap.allocate(8), Ok(Address::Heap(0)));
    heap.init(540);
    assert_eq!(heap.capacity(), 540);
    assert_eq!(heap.cursor(), 0);
    assert!(!heap.scratchpad_taken());
    // the earlier allocation is no longer the most recent one
    heap.free(Address::Heap(0));
    assert_eq!(heap.cursor(), 0);
}
