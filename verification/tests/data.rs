use split_ssh::data::CRwLock;
use split_ssh::driver::{ACCEPT_QUEUE_CAP, enqueue_accepted, promote_queued};

#[test]
fn fresh_slot_has_no_pending_install() {
    let slot: CRwLock<u32, 2> = CRwLock::new(7);
    assert_eq!(slot.count(), 0);
    assert_eq!(*slot.read(), 7);
}

#[test]
fn install_resets_the_counter() {
    let mut slot: CRwLock<u32, 2> = CRwLock::new(7);
    slot.replace(8);
    assert_eq!(*slot.read(), 8);
    assert_eq!(slot.count(), 2);
}

#[test]
fn install_waits_for_every_consumer() {
    let mut slot: CRwLock<u32, 2> = CRwLock::new(7);
    slot.replace(8);
    // One pump has consumed, the other has not: a further install is a
    // no-op.
    slot.consume();
    slot.replace(9);
    assert_eq!(*slot.read(), 8);
    assert_eq!(slot.count(), 1);
    // Both pumps have consumed: the next install takes effect.
    slot.consume();
    assert_eq!(slot.count(), 0);
    slot.replace(9);
    assert_eq!(*slot.read(), 9);
    assert_eq!(slot.count(), 2);
}

#[test]
fn queue_is_bounded() {
    let mut queue: Vec<u32> = Vec::new();
    for i in 0..10 {
        enqueue_accepted(&mut queue, i);
    }
    assert_eq!(queue.len(), ACCEPT_QUEUE_CAP);
    assert_eq!(queue, vec![0, 1, 2, 3, 4]);
}

#[test]
fn oldest_queued_stream_is_promoted() {
    let mut queue: Vec<u32> = vec![10, 11];
    let mut slot: CRwLock<u32, 2> = CRwLock::new(7);
    promote_queued(&mut queue, &mut slot);
    assert_eq!(*slot.read(), 10);
    assert_eq!(slot.count(), 2);
    assert_eq!(queue, vec![11]);
}

#[test]
fn promotion_waits_for_the_pending_cycle() {
    let mut queue: Vec<u32> = vec![10];
    let mut slot: CRwLock<u32, 2> = CRwLock::new(7);
    slot.replace(8);
    // The previous install has not been consumed: nothing moves.
    promote_queued(&mut queue, &mut slot);
    assert_eq!(*slot.read(), 8);
    assert_eq!(queue, vec![10]);
    // An empty queue moves nothing either.
    slot.consume();
    slot.consume();
    let mut empty: Vec<u32> = Vec::new();
    promote_queued(&mut empty, &mut slot);
    assert_eq!(*slot.read(), 8);
    assert_eq!(slot.count(), 0);
}
