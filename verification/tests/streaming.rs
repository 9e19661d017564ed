use rtlsdr::{AsyncClosureReader, BridgeError, CallbackBridge, Capture, Device, Operation, Reply};
use std::cell::{Cell, RefCell};
use std::rc::Rc;

#[test]
fn reader_hands_the_buffer_to_the_closure() {
    let seen: Rc<RefCell<Vec<Vec<u8>>>> = Rc::new(RefCell::new(Vec::new()));
    let sink = seen.clone();
    let mut reader = AsyncClosureReader::new(move |data: &[u8]| sink.borrow_mut().push(data.to_vec()));
    reader.read(&[1, 2, 3]);
    reader.read(&[]);
    assert_eq!(*seen.borrow(), vec![vec![1u8, 2, 3], vec![]]);
}

#[test]
fn reader_takes_a_boxed_closure() {
    let count = Rc::new(Cell::new(0usize));
    let sink = count.clone();
    let boxed: Box<dyn FnMut(&[u8])> = Box::new(move |data: &[u8]| sink.set(sink.get() + data.len()));
    let mut reader = AsyncClosureReader::new(boxed);
    reader.read(&[0; 10]);
    reader.read(&[0; 5]);
    assert_eq!(count.get(), 15);
}

#[test]
fn trampoline_delivers_the_counted_prefix_of_the_block() {
    let seen: Rc<RefCell<Vec<Vec<u8>>>> = Rc::new(RefCell::new(Vec::new()));
    let sink = seen.clone();
    let mut bridge = CallbackBridge::new(AsyncClosureReader::new(move |data: &[u8]| {
        sink.borrow_mut().push(data.to_vec())
    }));
    let block = [10u8, 11, 12, 13, 14, 15, 16, 17];
    assert_eq!(bridge.trampoline(&block, 3), Ok(()));
    assert_eq!(bridge.trampoline(&block, 8), Ok(()));
    assert_eq!(bridge.trampoline(&block, 0), Ok(()));
    assert_eq!(
        *seen.borrow(),
        vec![vec![10u8, 11, 12], vec![10, 11, 12, 13, 14, 15, 16, 17], vec![]]
    );
}

#[test]
fn trampoline_refuses_a_count_beyond_the_block() {
    let calls = Rc::new(Cell::new(0usize));
    let sink = calls.clone();
    let mut bridge =
        CallbackBridge::new(AsyncClosureReader::new(move |_: &[u8]| sink.set(sink.get() + 1)));
    assert_eq!(
        bridge.trampoline(&[1, 2, 3, 4], 5),
        Err(BridgeError::OutOfBounds { len: 5, available: 4 })
    );
    assert_eq!(calls.get(), 0);
    assert!(bridge.is_live());
    assert_eq!(bridge.trampoline(&[1, 2, 3, 4], 4), Ok(()));
    assert_eq!(calls.get(), 1);
}

#[test]
fn trampoline_after_release_fails_loudly() {
    let calls = Rc::new(Cell::new(0usize));
    let sink = calls.clone();
    let mut bridge =
        CallbackBridge::new(AsyncClosureReader::new(move |_: &[u8]| sink.set(sink.get() + 1)));
    assert_eq!(bridge.trampoline(&[1, 2], 2), Ok(()));
    assert!(bridge.release().is_some());
    assert!(!bridge.is_live());
    assert_eq!(bridge.trampoline(&[1, 2], 2), Err(BridgeError::NoContext));
    assert_eq!(bridge.trampoline(&[1, 2], 9), Err(BridgeError::NoContext));
    assert!(bridge.release().is_none());
    assert_eq!(calls.get(), 1);
}

#[test]
fn context_survives_every_invocation() {
    let calls = Rc::new(Cell::new(0usize));
    let sink = calls.clone();
    let mut bridge =
        CallbackBridge::new(AsyncClosureReader::new(move |_: &[u8]| sink.set(sink.get() + 1)));
    let block = [0u8; 16];
    for round in 0..100usize {
        assert!(bridge.is_live());
        assert_eq!(bridge.trampoline(&block, 16), Ok(()));
        assert_eq!(calls.get(), round + 1);
    }
    assert!(bridge.is_live());
}

#[test]
fn delivered_buffers_are_not_read_after_the_closure_returns() {
    // The driver stand-in fills one block over and over, and overwrites it
    // as soon as the trampoline has returned.
    let kept: Rc<RefCell<Vec<Vec<u8>>>> = Rc::new(RefCell::new(Vec::new()));
    let sink = kept.clone();
    let mut bridge = CallbackBridge::new(AsyncClosureReader::new(move |data: &[u8]| {
        sink.borrow_mut().push(data.to_vec())
    }));
    let mut block = [0u8; 8];
    for round in 0..4u8 {
        for slot in block.iter_mut() {
            *slot = round + 1;
        }
        assert_eq!(bridge.trampoline(&block, 8), Ok(()));
        for slot in block.iter_mut() {
            *slot = 0xee;
        }
    }
    assert_eq!(*kept.borrow(), vec![vec![1u8; 8], vec![2u8; 8], vec![3u8; 8], vec![4u8; 8]]);
}

#[test]
fn callback_invocations_never_overlap() {
    let depth = Rc::new(Cell::new(0usize));
    let deepest = Rc::new(Cell::new(0usize));
    let calls = Rc::new(Cell::new(0usize));
    let (d, m, c) = (depth.clone(), deepest.clone(), calls.clone());
    let mut bridge = CallbackBridge::new(AsyncClosureReader::new(move |_: &[u8]| {
        d.set(d.get() + 1);
        if d.get() > m.get() {
            m.set(d.get());
        }
        c.set(c.get() + 1);
        d.set(d.get() - 1);
    }));
    let block = [0u8; 4];
    for _ in 0..50 {
        assert_eq!(depth.get(), 0);
        assert_eq!(bridge.trampoline(&block, 4), Ok(()));
        assert_eq!(depth.get(), 0);
    }
    assert_eq!(calls.get(), 50);
    assert_eq!(deepest.get(), 1);
}

#[test]
fn bound_of_1024_with_blocks_of_512_cancels_after_the_second() {
    let mut device = Device::open(0, Reply { status: 0, os_code: 0 }, 77).unwrap();
    let mut canceller = device.clone();
    let start = device.read_async(512);
    assert_eq!(start.operation, Operation::ReadAsync { buffers: 0, block_size: 512 });

    let capture = Rc::new(RefCell::new(Capture::new(1024)));
    let cancels: Rc<RefCell<Vec<usize>>> = Rc::new(RefCell::new(Vec::new()));
    let delivered = Rc::new(Cell::new(0usize));
    let (cap, log, count) = (capture.clone(), cancels.clone(), delivered.clone());
    let mut bridge = CallbackBridge::new(AsyncClosureReader::new(move |data: &[u8]| {
        count.set(count.get() + 1);
        if cap.borrow_mut().record(data.len(), data.len()) {
            let request = canceller.cancel_async();
            assert_eq!(request.operation, Operation::CancelAsync);
            assert_eq!(request.handle, 77);
            log.borrow_mut().push(count.get());
        }
    }));

    // The driver stand-in delivers until it has been asked to cancel.
    let block = [0u8; 512];
    let mut rounds = 0;
    while cancels.borrow().is_empty() && rounds < 10 {
        assert_eq!(bridge.trampoline(&block, 512), Ok(()));
        rounds += 1;
    }
    assert_eq!(*cancels.borrow(), vec![2usize]);
    assert_eq!(delivered.get(), 2);
    assert_eq!(capture.borrow().total_written(), 1024);
    assert!(!capture.borrow().accepts());
    assert_eq!(start.outcome(Reply { status: 0, os_code: 0 }), Ok(()));
}

#[test]
fn cancel_through_a_clone_ends_the_read_without_error() {
    let mut reading = Device::open(0, Reply { status: 0, os_code: 0 }, 31).unwrap();
    let mut controller = reading.clone();
    let start = reading.read_async(262_144);

    let calls = Rc::new(Cell::new(0usize));
    let sink = calls.clone();
    let mut bridge =
        CallbackBridge::new(AsyncClosureReader::new(move |_: &[u8]| sink.set(sink.get() + 1)));
    let block = [0u8; 64];
    assert_eq!(bridge.trampoline(&block, 64), Ok(()));
    assert_eq!(bridge.trampoline(&block, 64), Ok(()));

    // The interrupt arrives on the controller's side while the read is on.
    let cancel = controller.cancel_async();
    assert_eq!(cancel.handle, start.handle);
    assert_eq!(cancel.operation, Operation::CancelAsync);
    assert_eq!(cancel.outcome(Reply { status: 0, os_code: 0 }), Ok(()));

    // The native read returns; the read ends and the context is released.
    assert_eq!(start.outcome(Reply { status: 0, os_code: 0 }), Ok(()));
    assert!(bridge.release().is_some());
    assert_eq!(bridge.trampoline(&block, 64), Err(BridgeError::NoContext));
    assert_eq!(calls.get(), 2);
}

#[test]
fn capture_counts_what_was_written() {
    let mut capture = Capture::new(0);
    assert_eq!(capture.total_written(), 0);
    assert!(capture.accepts());
    assert!(!capture.record(512, 512));
    assert!(!capture.record(100, 100));
    assert_eq!(capture.total_written(), 612);
    assert!(capture.accepts());
}

#[test]
fn capture_without_bound_never_stops_on_its_own() {
    let mut capture = Capture::new(0);
    for _ in 0..1000 {
        assert!(!capture.record(262_144, 262_144));
    }
    assert_eq!(capture.total_written(), 262_144_000);
    assert!(capture.accepts());
}

#[test]
fn capture_cancels_on_a_short_write() {
    let mut capture = Capture::new(0);
    assert!(capture.record(512, 100));
    assert_eq!(capture.total_written(), 100);
    assert!(!capture.accepts());
}

#[test]
fn capture_cancels_once_the_bound_is_reached() {
    let mut capture = Capture::new(1000);
    assert!(!capture.record(512, 512));
    assert!(capture.accepts());
    assert!(capture.record(512, 512));
    assert_eq!(capture.total_written(), 1024);
    assert!(!capture.accepts());

    let mut exact = Capture::new(1);
    assert!(exact.record(1, 1));
    let mut under = Capture::new(2);
    assert!(!under.record(1, 1));
}

#[test]
fn capture_total_saturates() {
    let mut capture = Capture::new(0);
    assert!(!capture.record(usize::MAX, usize::MAX));
    assert!(!capture.record(10, 10));
    assert_eq!(capture.total_written(), usize::MAX);
}

#[test]
fn capture_stays_stopped() {
    let mut capture = Capture::new(0);
    assert!(capture.record(8, 4));
    assert!(!capture.record(8, 8));
    assert!(!capture.accepts());
}
