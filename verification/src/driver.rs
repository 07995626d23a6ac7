//! Decisions of the listener's accept loop.
//!
//! While a session runs, the listener keeps accepting local streams into a
//! small queue. Whenever the queue is non-empty and no reconnect cycle is
//! pending — the slot's counter is back at zero — the oldest queued stream
//! is promoted into the replacement slot.

use crate::data::CRwLock;
use vstd::prelude::*;

verus! {

/// How many freshly accepted streams the listener keeps waiting.
pub const ACCEPT_QUEUE_CAP: usize = 5;

/// Queue a freshly accepted stream. A full queue keeps its streams and the
/// newcomer is dropped, closing it.
pub fn enqueue_accepted<T>(queue: &mut Vec<T>, conn: T)
    ensures
        old(queue)@.len() < ACCEPT_QUEUE_CAP ==> final(queue)@ == old(queue)@.push(conn),
        old(queue)@.len() >= ACCEPT_QUEUE_CAP ==> final(queue)@ == old(queue)@,
{
    if queue.len() < ACCEPT_QUEUE_CAP {
        queue.push(conn);
    }
}

/// Promote the oldest queued stream into the replacement slot, but only
/// when a stream is queued and no reconnect cycle is pending. Anything else
/// leaves both the queue and the slot untouched.
pub fn promote_queued<T, const NUM_RX: usize>(queue: &mut Vec<T>, slot: &mut CRwLock<T, NUM_RX>)
    ensures
        old(queue)@.len() > 0 && old(slot).spec_count() == 0 ==> {
            &&& final(queue)@ == old(queue)@.skip(1)
            &&& final(slot).value() == old(queue)@[0]
            &&& final(slot).spec_count() == NUM_RX
        },
        old(queue)@.len() == 0 || old(slot).spec_count() != 0 ==> final(queue)@ == old(queue)@
            && *final(slot) == *old(slot),
{
    if queue.len() > 0 && slot.count() == 0 {
        let head = queue.remove(0);
        slot.replace(head);
        proof {
            assert(queue@ =~= old(queue)@.skip(1));
        }
    }
}

} // verus!
