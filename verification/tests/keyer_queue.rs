use rustlf::keyer_interface::{CwKeyerKind, DigiKeyerKind, TrxMode};
use rustlf::write_keyer::{combine_segments, write_keyer, KeyerDispatch, KeyerQueue, KEYER_QUEUE_SIZE};

#[test]
fn append_and_drain_round_trip() {
    let mut q = KeyerQueue::new(KEYER_QUEUE_SIZE);
    q.keyer_append(b"CQ TEST");
    let data = q.drain().expect("queued text");
    assert_eq!(data, b"CQ TEST".to_vec());
    assert!(q.drain().is_none());
}

#[test]
fn overflow_keeps_capacity_prefix() {
    let mut q = KeyerQueue::new(5);
    q.keyer_append(b"ABCDEFGH");
    let data = q.drain().expect("queued text");
    assert_eq!(data, b"ABCDE".to_vec());
}

#[test]
fn overflow_after_partial_fill() {
    let mut q = KeyerQueue::new(5);
    q.keyer_append(b"AB");
    q.keyer_append(b"CDEFG");
    let data = q.drain().expect("queued text");
    assert_eq!(data, b"ABCDE".to_vec());
}

#[test]
fn append_char_and_wraparound() {
    let mut q = KeyerQueue::new(4);
    q.keyer_append(b"AB");
    assert_eq!(q.drain().unwrap(), b"AB".to_vec());
    // head has advanced; the next append wraps around the ring
    q.keyer_append(b"CDE");
    q.keyer_append_char(b'F');
    let data = q.drain().expect("queued text");
    assert_eq!(data, b"CDEF".to_vec());
}

#[test]
fn flush_discards_and_is_idempotent() {
    let mut q = KeyerQueue::new(16);
    q.keyer_append(b"ABC");
    q.keyer_flush();
    q.keyer_flush();
    assert!(q.drain().is_none());
    // the flush was consumed by the drain: the queue works again
    q.keyer_append(b"DE");
    assert_eq!(q.drain().unwrap(), b"DE".to_vec());
}

#[test]
fn drain_empty_is_none() {
    let mut q = KeyerQueue::new(16);
    assert!(q.drain().is_none());
}

#[test]
fn combine_segments_orders_left_first() {
    assert_eq!(combine_segments(b"AB", b"CD"), b"ABCD".to_vec());
    assert_eq!(combine_segments(b"", b"CD"), b"CD".to_vec());
    assert_eq!(combine_segments(b"AB", b""), b"AB".to_vec());
}

#[test]
fn null_keyer_cycle() {
    // End-to-end: CW mode with the null keyer; one drain cycle hands
    // the queued text to the null backend exactly once.
    let mut q = KeyerQueue::new(KEYER_QUEUE_SIZE);
    q.keyer_append(b"CQ TEST");
    let dispatch = write_keyer(&mut q, TrxMode::Cw, CwKeyerKind::NoKeyer, DigiKeyerKind::NoDigiKeyer);
    match dispatch {
        Some(KeyerDispatch::CwNull(m)) => assert_eq!(m, b"CQ TEST".to_vec()),
        other => panic!("unexpected dispatch: {:?}", other),
    }
    // the queue is empty afterwards: a second cycle keys nothing
    let again = write_keyer(&mut q, TrxMode::Cw, CwKeyerKind::NoKeyer, DigiKeyerKind::NoDigiKeyer);
    assert!(again.is_none());
}

#[test]
fn dispatch_strips_directives_for_rig_keyer() {
    let mut q = KeyerQueue::new(64);
    q.keyer_append(b"+CQ-DX+");
    let dispatch = write_keyer(&mut q, TrxMode::Cw, CwKeyerKind::HamlibKeyer, DigiKeyerKind::NoDigiKeyer);
    match dispatch {
        Some(KeyerDispatch::CwHamlib(m)) => assert_eq!(m, b"CQDX".to_vec()),
        other => panic!("unexpected dispatch: {:?}", other),
    }
}

#[test]
fn dispatch_gmfsk_frames_message() {
    let mut q = KeyerQueue::new(64);
    q.keyer_append(b"HELLO\n");
    let dispatch = write_keyer(&mut q, TrxMode::Digi, CwKeyerKind::NoKeyer, DigiKeyerKind::Gmfsk);
    match dispatch {
        Some(KeyerDispatch::DigiGmfsk(m)) => assert_eq!(m, b"\nHELLO".to_vec()),
        other => panic!("unexpected dispatch: {:?}", other),
    }
}

#[test]
fn dispatch_mfj_rewrites_line_endings() {
    let mut q = KeyerQueue::new(64);
    q.keyer_append(b"A\nB");
    let dispatch = write_keyer(&mut q, TrxMode::Cw, CwKeyerKind::Mfj1278Keyer, DigiKeyerKind::NoDigiKeyer);
    match dispatch {
        Some(KeyerDispatch::CwMfj(m)) => assert_eq!(m, b"A\rB".to_vec()),
        other => panic!("unexpected dispatch: {:?}", other),
    }
}

#[test]
fn ssb_mode_leaves_queue_alone() {
    let mut q = KeyerQueue::new(64);
    q.keyer_append(b"KEEP");
    let dispatch = write_keyer(&mut q, TrxMode::Ssb, CwKeyerKind::NetKeyer, DigiKeyerKind::NoDigiKeyer);
    assert!(dispatch.is_none());
    assert_eq!(q.drain().unwrap(), b"KEEP".to_vec());
}
