use overlapped_file::handle::AsyncHandle;
use overlapped_file::read::{Next, Step};
use overlapped_file::record::{OverlappedWrap, Phase};
use std::sync::atomic::{AtomicUsize, Ordering};
use std::sync::Arc;
use std::task::{Wake, Waker};

struct Counter {
    wakes: AtomicUsize,
}

impl Wake for Counter {
    fn wake(self: Arc<Self>) {
        self.wakes.fetch_add(1, Ordering::SeqCst);
    }
}

fn counter() -> (Arc<Counter>, Waker) {
    let counter = Arc::new(Counter { wakes: AtomicUsize::new(0) });
    let waker = Waker::from(counter.clone());
    (counter, waker)
}

fn wakes(counter: &Arc<Counter>) -> usize {
    counter.wakes.load(Ordering::SeqCst)
}

#[test]
fn new_record_is_zeroed() {
    let record = OverlappedWrap::new();
    assert_eq!(record.offset(), 0);
    assert_eq!(record.offset_low(), 0);
    assert_eq!(record.offset_high(), 0);
    assert_eq!(record.transferred(), 0);
    assert_eq!(record.status(), 0);
    assert_eq!(record.phase(), Phase::Idle);
    assert!(!record.is_in_flight());
    assert!(!record.has_waker());
}

#[test]
fn default_record_is_a_new_record() {
    let record = OverlappedWrap::default();
    assert_eq!(record.offset(), 0);
    assert_eq!(record.transferred(), 0);
    assert_eq!(record.status(), 0);
    assert_eq!(record.phase(), Phase::Idle);
    assert!(!record.has_waker());
}

#[test]
fn completion_writes_status_and_length() {
    let mut record = OverlappedWrap::new();
    let woken = record.complete(0, 4096);
    assert!(woken.is_none());
    assert_eq!(record.status(), 0);
    assert_eq!(record.transferred(), 4096);
    assert_eq!(record.offset(), 0);
    assert_eq!(record.phase(), Phase::Completed);
}

#[test]
fn completion_stores_an_error_verbatim() {
    let mut record = OverlappedWrap::new();
    let woken = record.complete(0xC000_009C, 0);
    assert!(woken.is_none());
    assert_eq!(record.status(), 0xC000_009C);
    assert_eq!(record.transferred(), 0);
    assert_eq!(record.phase(), Phase::Completed);
}

#[test]
fn a_later_completion_overwrites_an_earlier_one() {
    let mut record = OverlappedWrap::new();
    assert!(record.complete(0, 10).is_none());
    assert!(record.complete(5, 20).is_none());
    assert_eq!(record.status(), 5);
    assert_eq!(record.transferred(), 20);
    assert_eq!(record.phase(), Phase::Completed);
}

#[test]
fn an_idle_record_keeps_no_handle() {
    let (counter, waker) = counter();
    let mut record = OverlappedWrap::new();
    assert!(!record.register(waker));
    assert!(!record.has_waker());
    assert_eq!(record.phase(), Phase::Idle);
    assert_eq!(wakes(&counter), 0);
}

#[test]
fn a_completed_record_keeps_no_handle() {
    let (counter, waker) = counter();
    let mut record = OverlappedWrap::new();
    assert!(record.complete(0, 1).is_none());
    assert!(!record.register(waker));
    assert!(!record.has_waker());
    assert_eq!(record.phase(), Phase::Completed);
    assert_eq!(record.transferred(), 1);
    assert_eq!(wakes(&counter), 0);
}

fn submitted_handle() -> (AsyncHandle, overlapped_file::read::ReadOperation) {
    let mut handle = AsyncHandle::open(Ok(11)).unwrap();
    let mut operation = handle.read().unwrap();
    assert_eq!(operation.resume(&mut handle), Step::Submit { progress: None, offset: 0 });
    (handle, operation)
}

#[test]
fn registration_before_completion_resumes_once() {
    let (counter, waker) = counter();
    let (mut handle, _operation) = submitted_handle();
    assert!(handle.register(waker));
    assert!(handle.record().has_waker());
    assert!(handle.is_busy());
    let woken = handle.complete(0, 100);
    assert!(!handle.record().has_waker());
    let mut resumed = 0;
    if let Some(waker) = woken {
        waker.wake();
        resumed += 1;
    }
    assert_eq!(resumed, 1);
    assert_eq!(wakes(&counter), 1);
    assert_eq!(handle.record().transferred(), 100);
    assert_eq!(handle.record().phase(), Phase::Completed);
}

#[test]
fn completion_before_registration_resumes_once() {
    let (counter, waker) = counter();
    let (mut handle, mut operation) = submitted_handle();
    let mut resumed = 0;
    if let Some(early) = handle.complete(0, 100) {
        early.wake();
        resumed += 1;
    }
    assert_eq!(resumed, 0);
    match operation.submitted(&mut handle, Err(997), waker) {
        Next::Resume => resumed += 1,
        Next::Suspend => {},
        Next::Finished(_) => panic!("the read is not over"),
    }
    assert_eq!(resumed, 1);
    assert_eq!(wakes(&counter), 0);
    assert!(!handle.record().has_waker());
    assert_eq!(
        operation.resume(&mut handle),
        Step::Submit { progress: Some(100), offset: 100 }
    );
}

#[test]
fn both_orders_leave_the_same_record() {
    let (_first_counter, first_waker) = counter();
    let (mut first, mut first_operation) = submitted_handle();
    assert_eq!(first_operation.submitted(&mut first, Err(997), first_waker), Next::Suspend);
    assert!(first.complete(0, 77).is_some());

    let (_second_counter, second_waker) = counter();
    let (mut second, mut second_operation) = submitted_handle();
    assert!(second.complete(0, 77).is_none());
    assert_eq!(second_operation.submitted(&mut second, Err(997), second_waker), Next::Resume);

    assert_eq!(first.record().offset(), second.record().offset());
    assert_eq!(first.record().transferred(), second.record().transferred());
    assert_eq!(first.record().status(), second.record().status());
    assert_eq!(first.record().phase(), second.record().phase());
    assert_eq!(first.record().has_waker(), second.record().has_waker());
}

#[test]
fn a_second_completion_hands_out_no_handle() {
    let (counter, waker) = counter();
    let (mut handle, _operation) = submitted_handle();
    assert!(handle.register(waker));
    let first = handle.complete(0, 1);
    let second = handle.complete(0, 1);
    assert!(first.is_some());
    assert!(second.is_none());
    first.unwrap().wake();
    assert_eq!(wakes(&counter), 1);
}

#[test]
fn a_newer_handle_replaces_the_stored_one() {
    let (old_counter, old_waker) = counter();
    let (new_counter, new_waker) = counter();
    let (mut handle, _operation) = submitted_handle();
    assert!(handle.register(old_waker));
    assert!(handle.register(new_waker));
    let woken = handle.complete(0, 8).unwrap();
    woken.wake();
    assert_eq!(wakes(&old_counter), 0);
    assert_eq!(wakes(&new_counter), 1);
}

#[test]
fn offset_halves_split_at_thirty_two_bits() {
    let (_counter, waker) = counter();
    let (mut handle, mut operation) = submitted_handle();
    assert_eq!(operation.submitted(&mut handle, Err(997), waker.clone()), Next::Suspend);
    let mut offset: u64 = 0;
    for _ in 0..3 {
        assert!(handle.complete(0, u32::MAX).is_some());
        offset += u32::MAX as u64;
        assert_eq!(
            operation.resume(&mut handle),
            Step::Submit { progress: Some(u32::MAX), offset }
        );
        assert_eq!(operation.submitted(&mut handle, Err(997), waker.clone()), Next::Suspend);
    }
    assert_eq!(handle.record().offset(), 0x2_FFFF_FFFD);
    assert_eq!(handle.record().offset_low(), 0xFFFF_FFFD);
    assert_eq!(handle.record().offset_high(), 2);
    let rebuilt =
        ((handle.record().offset_high() as u64) << 32) | handle.record().offset_low() as u64;
    assert_eq!(rebuilt, handle.record().offset());
}

#[test]
fn offset_halves_below_four_gibibytes() {
    let (mut handle, mut operation) = submitted_handle();
    assert!(handle.complete(0, 65536).is_none());
    assert_eq!(
        operation.resume(&mut handle),
        Step::Submit { progress: Some(65536), offset: 65536 }
    );
    assert_eq!(handle.record().offset_low(), 65536);
    assert_eq!(handle.record().offset_high(), 0);
}
