use ledstrip::heap::{HeapArena, HeapError, HEAP_SIZE};
use ledstrip::provision::{interpret_config_read, is_erased, Provisioning, StorageError, CONFIG_LEN};
use ledstrip::scheduler::SchedulerBuilder;

#[test]
fn zero_interval_is_refused() {
    let mut b = SchedulerBuilder::new();
    assert_eq!(b.register(0), None);
    assert_eq!(b.register(20), Some(0));
    assert_eq!(b.start().task_count(), 1);
}

#[test]
fn tasks_run_once_per_interval() {
    let mut b = SchedulerBuilder::new();
    assert_eq!(b.register(20), Some(0));
    assert_eq!(b.register(5_000), Some(1));
    let mut s = b.start();
    s.run_until(10_000);
    assert_eq!(s.runs(0), 501);
    assert_eq!(s.runs(1), 3);
    assert_eq!(s.task_count(), 2);
    assert!(s.now() <= 10_000);
    assert!(s.next_due() > 10_000);
}

#[test]
fn every_task_meets_its_liveness_floor() {
    let mut b = SchedulerBuilder::new();
    let intervals = [7u32, 20, 333, 5_000];
    for iv in intervals {
        b.register(iv);
    }
    let mut s = b.start();
    let end: u64 = 123_457;
    s.run_until(end);
    for (k, iv) in intervals.iter().enumerate() {
        assert!(s.runs(k) + 1 >= end / (*iv as u64));
        assert_eq!(s.runs(k), end / (*iv as u64) + 1);
    }
}

#[test]
fn step_resumes_earliest_first_in_registration_order() {
    let mut b = SchedulerBuilder::new();
    b.register(30);
    b.register(20);
    let mut s = b.start();
    assert_eq!(s.step(), 0);
    assert_eq!(s.step(), 1);
    assert_eq!(s.step(), 1);
    assert_eq!(s.now(), 20);
    assert_eq!(s.step(), 0);
    assert_eq!(s.now(), 30);
}

#[test]
fn allocation_before_init_is_refused() {
    let mut h = HeapArena::empty();
    assert_eq!(h.allocate(16), Err(HeapError::NotInitialized));
    assert!(!h.is_initialized());
}

#[test]
fn arena_hands_out_disjoint_blocks() {
    let mut h = HeapArena::empty();
    assert_eq!(h.init(0x1000, HEAP_SIZE), Ok(()));
    assert_eq!(h.allocate(100), Ok(0x1000));
    assert_eq!(h.allocate(100), Ok(0x1064));
    assert_eq!(h.available(), HEAP_SIZE - 200);
    assert_eq!(h.allocate(3_000), Err(HeapError::Exhausted));
    assert_eq!(h.allocate(HEAP_SIZE - 200), Ok(0x10C8));
    assert_eq!(h.allocate(1), Err(HeapError::Exhausted));
    assert_eq!(h.allocate(0), Ok(0x1000 + HEAP_SIZE));
}

#[test]
fn arena_init_only_once() {
    let mut h = HeapArena::empty();
    assert_eq!(h.init(0x2000, 64), Ok(()));
    assert_eq!(h.init(0x3000, 64), Err(HeapError::AlreadyInitialized));
    assert_eq!(h.allocate(1), Ok(0x2000));
}

#[test]
fn failed_read_gives_defaults() {
    assert!(matches!(interpret_config_read(Err(StorageError::DeviceError)), Provisioning::Default));
    assert!(matches!(interpret_config_read(Err(StorageError::OutOfBounds)), Provisioning::Default));
}

#[test]
fn erased_or_empty_flash_gives_defaults() {
    assert!(is_erased(&vec![0xFF; CONFIG_LEN]));
    assert!(!is_erased(&vec![0xFF, 0x00]));
    assert!(matches!(interpret_config_read(Ok(vec![0xFF; CONFIG_LEN])), Provisioning::Default));
    assert!(matches!(interpret_config_read(Ok(vec![])), Provisioning::Default));
}

#[test]
fn stored_bytes_are_kept() {
    let mut data = vec![0xFF; CONFIG_LEN];
    data[0] = b'n';
    data[1] = b'e';
    match interpret_config_read(Ok(data.clone())) {
        Provisioning::Stored(d) => assert_eq!(d, data),
        Provisioning::Default => panic!("stored configuration was dropped"),
    }
}
