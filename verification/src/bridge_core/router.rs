//! Routing of frames from the iPhone input buffer to the Blender output buffer.

use crate::bridge_core::buffer::{
    counter_after_one, push_accepted, queue_after_pop, queue_after_push, queue_front, LockFreeBuffer,
};
use crate::error::Error;
use tokio::sync::watch;
use vstd::prelude::*;

verus! {

#[verifier::external_type_specification]
#[verifier::external_body]
#[verifier::reject_recursive_types(T)]
pub struct ExWatchReceiver<T>(watch::Receiver<T>);

/// Calls `watch::Receiver::borrow` and reads the flag. The flag is set by another
/// task, so nothing is claimed of the value.
#[verifier::external_body]
fn shutdown_flag(shutdown: &watch::Receiver<bool>) -> bool {
    *shutdown.borrow()
}

/// The message of the error returned when a frame cannot be forwarded.
pub open spec fn output_full_message() -> Seq<char> {
    "Output buffer full"@
}

/// A call made on a router: a frame offered by the iPhone side (`accept_input`),
/// a routing step (`route_step`), or taking the next frame for Blender (`next_output`).
pub enum RouterCall<T> {
    Accept(T),
    Route,
    Take,
}

/// What a router holds and has seen: the frames waiting in each buffer, the
/// frames offered to it, and the frames it handed out, each in order.
pub struct RouterTrace<T> {
    pub input: Seq<T>,
    pub output: Seq<T>,
    pub received: Seq<T>,
    pub sent: Seq<T>,
}

/// The trace of a new router with buffers of `slots` slots after `calls`, each
/// call acting as the contract of its function says.
pub open spec fn trace_after_calls<T>(slots: nat, calls: Seq<RouterCall<T>>) -> RouterTrace<T>
    decreases calls.len(),
{
    if calls.len() == 0 {
        RouterTrace { input: Seq::empty(), output: Seq::empty(), received: Seq::empty(), sent: Seq::empty() }
    } else {
        let t = trace_after_calls(slots, calls.drop_last());
        match calls.last() {
            RouterCall::Accept(frame) => RouterTrace {
                input: queue_after_push(t.input, slots, frame),
                received: t.received.push(frame),
                ..t
            },
            RouterCall::Route => RouterTrace {
                input: queue_after_pop(t.input),
                output: match queue_front(t.input) {
                    None => t.output,
                    Some(frame) => queue_after_push(t.output, slots, frame),
                },
                ..t
            },
            RouterCall::Take => RouterTrace {
                output: queue_after_pop(t.output),
                sent: match queue_front(t.output) {
                    None => t.sent,
                    Some(frame) => t.sent.push(frame),
                },
                ..t
            },
        }
    }
}

/// `idx` places the items of `a` in `b`: `a[k] == b[idx[k]]`, at increasing positions.
pub open spec fn ordered_embedding<T>(a: Seq<T>, b: Seq<T>, idx: Seq<int>) -> bool {
    &&& idx.len() == a.len()
    &&& forall|k: int| 0 <= k < idx.len() ==> 0 <= #[trigger] idx[k] < b.len() && a[k] == b[idx[k]]
    &&& forall|k: int, l: int| 0 <= k < l < idx.len() ==> #[trigger] idx[k] < #[trigger] idx[l]
}

/// `a` is `b` with some items left out and the others in their order.
pub open spec fn is_ordered_subsequence<T>(a: Seq<T>, b: Seq<T>) -> bool {
    exists|idx: Seq<int>| ordered_embedding(a, b, idx)
}

proof fn lemma_embedding_push_both<T>(a: Seq<T>, b: Seq<T>, idx: Seq<int>, x: T)
    requires
        ordered_embedding(a, b, idx),
    ensures
        ordered_embedding(a.push(x), b.push(x), idx.push(b.len() as int)),
{
    let idx2 = idx.push(b.len() as int);
    assert forall|k: int| 0 <= k < idx2.len() implies 0 <= #[trigger] idx2[k] < b.push(x).len() && a.push(x)[k]
        == b.push(x)[idx2[k]] by {
        if k < idx.len() {
            assert(idx2[k] == idx[k]);
        }
    }
    assert forall|k: int, l: int| 0 <= k < l < idx2.len() implies #[trigger] idx2[k] < #[trigger] idx2[l] by {
        if l < idx.len() {
            assert(idx2[k] == idx[k] && idx2[l] == idx[l]);
        } else {
            assert(idx2[k] == idx[k]);
        }
    }
}

proof fn lemma_embedding_extend<T>(a: Seq<T>, b: Seq<T>, idx: Seq<int>, x: T)
    requires
        ordered_embedding(a, b, idx),
    ensures
        ordered_embedding(a, b.push(x), idx),
{
    assert forall|k: int| 0 <= k < idx.len() implies 0 <= #[trigger] idx[k] < b.push(x).len() && a[k]
        == b.push(x)[idx[k]] by {
    }
}

proof fn lemma_embedding_remove<T>(a: Seq<T>, b: Seq<T>, idx: Seq<int>, p: int)
    requires
        ordered_embedding(a, b, idx),
        0 <= p < a.len(),
    ensures
        ordered_embedding(a.remove(p), b, idx.remove(p)),
{
    let a2 = a.remove(p);
    let idx2 = idx.remove(p);
    assert forall|k: int| 0 <= k < idx2.len() implies 0 <= #[trigger] idx2[k] < b.len() && a2[k] == b[idx2[k]] by {
        if k < p {
            assert(idx2[k] == idx[k] && a2[k] == a[k]);
        } else {
            assert(idx2[k] == idx[k + 1] && a2[k] == a[k + 1]);
        }
    }
    assert forall|k: int, l: int| 0 <= k < l < idx2.len() implies #[trigger] idx2[k] < #[trigger] idx2[l] by {
        let k1 = if k < p { k } else { k + 1 };
        let l1 = if l < p { l } else { l + 1 };
        assert(idx2[k] == idx[k1] && idx2[l] == idx[l1]);
        assert(idx[k1] < idx[l1]);
    }
}

proof fn lemma_embedding_take<T>(a: Seq<T>, b: Seq<T>, idx: Seq<int>, n: int)
    requires
        ordered_embedding(a, b, idx),
        0 <= n <= a.len(),
    ensures
        ordered_embedding(a.take(n), b, idx.take(n)),
{
    let idx2 = idx.take(n);
    assert forall|k: int| 0 <= k < idx2.len() implies 0 <= #[trigger] idx2[k] < b.len() && a.take(n)[k] == b[idx2[k]] by {
        assert(idx2[k] == idx[k]);
    }
    assert forall|k: int, l: int| 0 <= k < l < idx2.len() implies #[trigger] idx2[k] < #[trigger] idx2[l] by {
        assert(idx2[k] == idx[k] && idx2[l] == idx[l]);
    }
}

/// The frames sent, then those waiting for Blender, then those waiting to be
/// routed, lie in order among the frames received.
proof fn lemma_trace_embedding<T>(slots: nat, calls: Seq<RouterCall<T>>) -> (idx: Seq<int>)
    ensures
        ordered_embedding(
            trace_after_calls(slots, calls).sent + trace_after_calls(slots, calls).output
                + trace_after_calls(slots, calls).input,
            trace_after_calls(slots, calls).received,
            idx,
        ),
    decreases calls.len(),
{
    if calls.len() == 0 {
        let t = trace_after_calls(slots, calls);
        assert(t.sent + t.output + t.input =~= Seq::<T>::empty());
        Seq::empty()
    } else {
        let idx = lemma_trace_embedding(slots, calls.drop_last());
        let t = trace_after_calls(slots, calls.drop_last());
        let t2 = trace_after_calls(slots, calls);
        let a = t.sent + t.output + t.input;
        let a2 = t2.sent + t2.output + t2.input;
        match calls.last() {
            RouterCall::Accept(frame) => {
                if push_accepted(t.input, slots) {
                    assert(a2 =~= a.push(frame));
                    lemma_embedding_push_both(a, t.received, idx, frame);
                    idx.push(t.received.len() as int)
                } else {
                    assert(a2 =~= a);
                    lemma_embedding_extend(a, t.received, idx, frame);
                    idx
                }
            },
            RouterCall::Route => {
                if t.input.len() == 0 {
                    assert(a2 =~= a);
                    idx
                } else if push_accepted(t.output, slots) {
                    assert(a2 =~= a);
                    idx
                } else {
                    let p = (t.sent.len() + t.output.len()) as int;
                    assert(a2 =~= a.remove(p));
                    lemma_embedding_remove(a, t.received, idx, p);
                    idx.remove(p)
                }
            },
            RouterCall::Take => {
                assert(a2 =~= a);
                idx
            },
        }
    }
}

/// Frames leave in the order they arrived: whatever calls are made on a new
/// router, the frames it hands out for Blender are the frames it received, some
/// left out (dropped on a full buffer), none repeated, none reordered.
pub proof fn law_sent_frames_keep_arrival_order<T>(slots: nat, calls: Seq<RouterCall<T>>)
    ensures
        is_ordered_subsequence(trace_after_calls(slots, calls).sent, trace_after_calls(slots, calls).received),
{
    let t = trace_after_calls(slots, calls);
    let idx = lemma_trace_embedding(slots, calls);
    let a = t.sent + t.output + t.input;
    lemma_embedding_take(a, t.received, idx, t.sent.len() as int);
    assert(a.take(t.sent.len() as int) =~= t.sent);
}

/// Two frame buffers, one filled from the iPhone side and one drained towards
/// Blender, and the shutdown signal that stops the routing tasks.
pub struct Router {
    input_buffer: LockFreeBuffer<Vec<u8>>,
    output_buffer: LockFreeBuffer<Vec<u8>>,
    shutdown: watch::Receiver<bool>,
}

impl Router {
    /// Well-formedness: both buffers are well formed.
    pub closed spec fn wf(&self) -> bool {
        self.input_buffer.wf() && self.output_buffer.wf()
    }

    /// The frames waiting to be routed, oldest first.
    pub closed spec fn pending_input(&self) -> Seq<Vec<u8>> {
        self.input_buffer@
    }

    /// The frames waiting to be sent to Blender, oldest first.
    pub closed spec fn pending_output(&self) -> Seq<Vec<u8>> {
        self.output_buffer@
    }

    /// The number of slots of each buffer.
    pub closed spec fn slots(&self) -> nat {
        self.input_buffer.slots()
    }

    /// The number of frames refused by the input buffer because it was full.
    pub closed spec fn input_drops(&self) -> usize {
        self.input_buffer.drops()
    }

    /// The receiver of the shutdown signal.
    pub closed spec fn shutdown_signal(&self) -> watch::Receiver<bool> {
        self.shutdown
    }

    /// The buffer of frames received from the iPhone.
    pub closed spec fn inbound(&self) -> LockFreeBuffer<Vec<u8>> {
        self.input_buffer
    }

    /// The buffer of frames waiting to be sent to Blender.
    pub closed spec fn outbound(&self) -> LockFreeBuffer<Vec<u8>> {
        self.output_buffer
    }

    /// Both buffers have the same number of slots.
    pub closed spec fn same_slots(&self) -> bool {
        self.input_buffer.slots() == self.output_buffer.slots()
    }

    /// A router with two empty buffers of `capacity` slots.
    pub fn new(capacity: usize, shutdown: watch::Receiver<bool>) -> (r: Self)
        ensures
            r.wf(),
            r.same_slots(),
            r.slots() == capacity,
            r.pending_input() == Seq::<Vec<u8>>::empty(),
            r.pending_output() == Seq::<Vec<u8>>::empty(),
            r.input_drops() == 0,
            r.shutdown_signal() == shutdown,
            r.inbound().operations() == 0,
            r.inbound().drops() == 0,
            r.inbound().latency_ns() == 0,
            r.outbound().operations() == 0,
            r.outbound().drops() == 0,
            r.outbound().latency_ns() == 0,
    {
        Router {
            input_buffer: LockFreeBuffer::new(capacity),
            output_buffer: LockFreeBuffer::new(capacity),
            shutdown,
        }
    }

    /// Whether shutdown has been signalled.
    pub fn is_shutdown(&self) -> bool {
        shutdown_flag(&self.shutdown)
    }

    /// Queues a frame received from the iPhone. A frame that finds the input
    /// buffer full is dropped and counted; the result says whether it was queued.
    pub fn accept_input(&mut self, data: Vec<u8>) -> (queued: bool)
        requires
            old(self).wf(),
            old(self).same_slots(),
            old(self).slots() > 0,
        ensures
            final(self).shutdown_signal() == old(self).shutdown_signal(),
            final(self).wf(),
            final(self).same_slots(),
            final(self).slots() == old(self).slots(),
            final(self).pending_output() == old(self).pending_output(),
            queued == push_accepted(old(self).pending_input(), old(self).slots()),
            final(self).pending_input() == queue_after_push(old(self).pending_input(), old(self).slots(), data),
            final(self).input_drops() == if queued {
                old(self).input_drops()
            } else {
                counter_after_one(old(self).input_drops())
            },
    {
        self.input_buffer.try_push(data).is_ok()
    }

    /// Moves the oldest input frame, if any, to the output buffer. Returns whether
    /// a frame was moved, or a processing error when the output buffer is full
    /// (the frame is then lost).
    pub fn route_step(&mut self) -> (r: Result<bool, Error>)
        requires
            old(self).wf(),
            old(self).same_slots(),
        ensures
            final(self).shutdown_signal() == old(self).shutdown_signal(),
            final(self).wf(),
            final(self).same_slots(),
            final(self).slots() == old(self).slots(),
            final(self).input_drops() == old(self).input_drops(),
            final(self).pending_input() == queue_after_pop(old(self).pending_input()),
            match queue_front(old(self).pending_input()) {
                None => r == Ok::<bool, Error>(false) && final(self).pending_output() == old(
                    self,
                ).pending_output(),
                Some(frame) => {
                    &&& final(self).pending_output() == queue_after_push(
                        old(self).pending_output(),
                        old(self).slots(),
                        frame,
                    )
                    &&& if push_accepted(old(self).pending_output(), old(self).slots()) {
                        r == Ok::<bool, Error>(true)
                    } else {
                        r matches Err(Error::Processing(m)) && m@ == output_full_message()
                    }
                },
            },
    {
        proof {
            self.input_buffer.lemma_fewer_items_than_slots();
        }
        match self.input_buffer.try_pop() {
            Some(data) => {
                match self.output_buffer.try_push(data) {
                    Ok(()) => Ok(true),
                    Err(_) => Err(Error::Processing("Output buffer full".to_owned())),
                }
            },
            None => Ok(false),
        }
    }

    /// Takes the oldest frame waiting to be sent to Blender.
    pub fn next_output(&mut self) -> (r: Option<Vec<u8>>)
        requires
            old(self).wf(),
        ensures
            final(self).shutdown_signal() == old(self).shutdown_signal(),
            final(self).wf(),
            final(self).same_slots() == old(self).same_slots(),
            final(self).slots() == old(self).slots(),
            final(self).input_drops() == old(self).input_drops(),
            final(self).pending_input() == old(self).pending_input(),
            r == queue_front(old(self).pending_output()),
            final(self).pending_output() == queue_after_pop(old(self).pending_output()),
    {
        self.output_buffer.try_pop()
    }

    /// Re-establishes the connections; there is nothing to restore, so it succeeds.
    pub fn recover_connection(&self) -> (r: Result<(), Error>)
        ensures
            r is Ok,
    {
        Ok(())
    }
}

} // verus!
