use ad9361_rs::{
    status_outcome, value_result, Address, HeapAllocator, InstanceError, InstanceFlag, Lifecycle,
    UsageError,
};

#[test]
fn one_instance_at_a_time() {
    let mut flag = InstanceFlag::new();
    assert!(!flag.is_taken());
    assert_eq!(flag.take(), Ok(()));
    assert_eq!(flag.take(), Err(InstanceError::AlreadyTaken));
    assert!(flag.is_taken());
    assert_eq!(flag.give_back(), Ok(()));
    assert!(!flag.is_taken());
    assert_eq!(flag.take(), Ok(()));
}

#[test]
fn releasing_twice_is_refused() {
    let mut flag = InstanceFlag::new();
    assert_eq!(flag.give_back(), Err(InstanceError::NotTaken));
    assert_eq!(flag.take(), Ok(()));
    assert_eq!(flag.give_back(), Ok(()));
    assert_eq!(flag.give_back(), Err(InstanceError::NotTaken));
}

#[test]
fn accessors_refused_before_init() {
    let life = Lifecycle::new();
    assert!(!life.is_initialized());
    assert_eq!(life.check_ready(), Err(UsageError::NotInitialized));
}

#[test]
fn init_then_reinit() {
    let mut life = Lifecycle::new();
    let mut heap = HeapAllocator::new(0);

    // first init: nothing to release
    assert!(!life.begin_init(&mut heap, 540));
    assert_eq!(heap.capacity(), 540);
    assert_eq!(heap.allocate(100), Ok(Address::Heap(0)));
    assert_eq!(life.complete_init(0, true), Ok(()));
    assert!(life.is_initialized());
    assert_eq!(life.check_ready(), Ok(()));

    // second init: the first state is released and the heap starts over
    assert!(life.begin_init(&mut heap, 540));
    assert_eq!(heap.cursor(), 0);
    assert!(!life.is_initialized());
    assert_eq!(life.check_ready(), Err(UsageError::NotInitialized));
    assert_eq!(life.complete_init(0, true), Ok(()));
    assert_eq!(life.check_ready(), Ok(()));

    // teardown
    assert!(life.release());
    assert!(!life.release());
}

#[test]
fn failed_init_reports_status() {
    let mut life = Lifecycle::new();
    let mut heap = HeapAllocator::new(0);
    assert!(!life.begin_init(&mut heap, 400));
    assert_eq!(life.complete_init(-12, false), Err(-12));
    assert!(life.is_initialized());
    assert_eq!(life.check_ready(), Err(UsageError::NotInitialized));
    // nothing is held, so nothing is released
    assert!(!life.release());
}

#[test]
fn status_mapping() {
    assert_eq!(status_outcome(0), Ok(()));
    assert_eq!(status_outcome(-22), Err(-22));
    assert_eq!(status_outcome(5), Err(5));
    assert_eq!(value_result(0, 2600u32), Ok(2600));
    assert_eq!(value_result(-1, 2600u32), Err(-1));
}
