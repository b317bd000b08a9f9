//! Bounded first-in first-out queues, as `crossbeam_queue::ArrayQueue` provides them: the
//! frames received from the network card and the scancodes received from the keyboard.
use vstd::prelude::*;

use crossbeam_queue::ArrayQueue;

verus! {

/// The queue type of `crossbeam_queue`.
#[verifier::external_type_specification]
#[verifier::external_body]
#[verifier::reject_recursive_types(T)]
pub struct ExArrayQueue<T>(ArrayQueue<T>);

/// The frames in a frame queue, oldest first.
pub uninterp spec fn frame_queue_contents(q: ArrayQueue<Vec<u8>>) -> Seq<Seq<u8>>;

/// The capacity that a frame queue was made with.
pub uninterp spec fn frame_queue_capacity(q: ArrayQueue<Vec<u8>>) -> nat;

/// The scancodes in a scancode queue, oldest first.
pub uninterp spec fn scancode_queue_contents(q: ArrayQueue<u8>) -> Seq<u8>;

/// The capacity that a scancode queue was made with.
pub uninterp spec fn scancode_queue_capacity(q: ArrayQueue<u8>) -> nat;

/// `ArrayQueue::new` for frames: an empty queue of capacity `cap` (it panics on a zero
/// capacity, and on one too large to round up to a power of two).
#[verifier::external_body]
pub(crate) fn frame_queue_new(cap: usize) -> (r: ArrayQueue<Vec<u8>>)
    requires
        0 < cap <= usize::MAX / 2,
    ensures
        frame_queue_contents(r) == Seq::<Seq<u8>>::empty(),
        frame_queue_capacity(r) == cap,
{
    ArrayQueue::new(cap)
}

/// `ArrayQueue::push` for frames: adds `value` behind the others, or hands it back when the
/// queue holds as many frames as its capacity.
#[verifier::external_body]
pub(crate) fn frame_queue_push(q: &mut ArrayQueue<Vec<u8>>, value: Vec<u8>) -> (r: Result<(), Vec<u8>>)
    ensures
        frame_queue_contents(*old(q)).len() < frame_queue_capacity(*old(q)) ==> r is Ok
            && frame_queue_capacity(*final(q)) == frame_queue_capacity(*old(q))
            && frame_queue_contents(*final(q)) == frame_queue_contents(*old(q)).push(value@),
        frame_queue_contents(*old(q)).len() >= frame_queue_capacity(*old(q)) ==> frame_queue_capacity(*final(q)) == frame_queue_capacity(*old(q)) && (r matches Err(v) && v == value)
            && frame_queue_contents(*final(q)) == frame_queue_contents(*old(q)),
{
    q.push(value)
}

/// `ArrayQueue::pop` for frames: takes out the oldest frame, or none when the queue is
/// empty.
#[verifier::external_body]
pub(crate) fn frame_queue_pop(q: &mut ArrayQueue<Vec<u8>>) -> (r: Option<Vec<u8>>)
    ensures
        frame_queue_capacity(*final(q)) == frame_queue_capacity(*old(q)),
        frame_queue_contents(*old(q)).len() == 0 ==> r is None && frame_queue_contents(*final(q))
            == frame_queue_contents(*old(q)),
        frame_queue_contents(*old(q)).len() > 0 ==> (r matches Some(v) && v@ == frame_queue_contents(*old(q))[0]
            && frame_queue_contents(*final(q)) == frame_queue_contents(*old(q)).drop_first()),
{
    q.pop()
}

/// `ArrayQueue::new` for scancodes: an empty queue of capacity `cap` (it panics on a zero
/// capacity, and on one too large to round up to a power of two).
#[verifier::external_body]
pub(crate) fn scancode_queue_new(cap: usize) -> (r: ArrayQueue<u8>)
    requires
        0 < cap <= usize::MAX / 2,
    ensures
        scancode_queue_contents(r) == Seq::<u8>::empty(),
        scancode_queue_capacity(r) == cap,
{
    ArrayQueue::new(cap)
}

/// `ArrayQueue::push` for scancodes: adds `value` behind the others, or hands it back when
/// the queue holds as many scancodes as its capacity.
#[verifier::external_body]
pub(crate) fn scancode_queue_push(q: &mut ArrayQueue<u8>, value: u8) -> (r: Result<(), u8>)
    ensures
        scancode_queue_contents(*old(q)).len() < scancode_queue_capacity(*old(q)) ==> r is Ok
            && scancode_queue_capacity(*final(q)) == scancode_queue_capacity(*old(q))
            && scancode_queue_contents(*final(q)) == scancode_queue_contents(*old(q)).push(value),
        scancode_queue_contents(*old(q)).len() >= scancode_queue_capacity(*old(q)) ==> scancode_queue_capacity(*final(q)) == scancode_queue_capacity(*old(q)) && (r matches Err(v) && v == value)
            && scancode_queue_contents(*final(q)) == scancode_queue_contents(*old(q)),
{
    q.push(value)
}

/// `ArrayQueue::pop` for scancodes: takes out the oldest scancode, or none when the queue
/// is empty.
#[verifier::external_body]
pub(crate) fn scancode_queue_pop(q: &mut ArrayQueue<u8>) -> (r: Option<u8>)
    ensures
        scancode_queue_capacity(*final(q)) == scancode_queue_capacity(*old(q)),
        scancode_queue_contents(*old(q)).len() == 0 ==> r is None && scancode_queue_contents(*final(q))
            == scancode_queue_contents(*old(q)),
        scancode_queue_contents(*old(q)).len() > 0 ==> r == Some(scancode_queue_contents(*old(q))[0])
            && scancode_queue_contents(*final(q)) == scancode_queue_contents(*old(q)).drop_first(),
{
    q.pop()
}

} // verus!
