//! A bounded ring buffer of frames between the network tasks and the processor.
//!
//! The buffer keeps `capacity` slots and leaves one of them free to tell a full
//! buffer from an empty one, so it holds at most `capacity - 1` items.

use crate::clock::{
    duration_as_nanos, duration_from_nanos, duration_nanos, duration_of_nanos, instant_elapsed, instant_now,
};
use std::time::{Duration, Instant};
use vstd::prelude::*;

verus! {

/// A counter after one more event: it wraps to zero past `usize::MAX`, as an
/// atomic `fetch_add` does.
pub open spec fn counter_after_one(n: usize) -> usize {
    if n == usize::MAX {
        0
    } else {
        (n + 1) as usize
    }
}

/// Increments a counter, wrapping past `usize::MAX`.
pub(crate) fn bump_counter(n: usize) -> (r: usize)
    ensures
        r == counter_after_one(n),
{
    n.wrapping_add(1)
}

/// Whether a buffer of `slots` slots holding `q` has room for one more item;
/// one slot always stays free.
pub open spec fn push_accepted<T>(q: Seq<T>, slots: nat) -> bool {
    q.len() + 1 < slots
}

/// The items held after offering `item` to a buffer of `slots` slots holding `q`:
/// appended at the back when there is room, refused otherwise.
pub open spec fn queue_after_push<T>(q: Seq<T>, slots: nat, item: T) -> Seq<T> {
    if push_accepted(q, slots) {
        q.push(item)
    } else {
        q
    }
}

/// The item a pop returns from a buffer holding `q`: the oldest one.
pub open spec fn queue_front<T>(q: Seq<T>) -> Option<T> {
    if q.len() == 0 {
        None
    } else {
        Some(q[0])
    }
}

/// The items held after a pop from a buffer holding `q`.
pub open spec fn queue_after_pop<T>(q: Seq<T>) -> Seq<T> {
    if q.len() == 0 {
        q
    } else {
        q.drop_first()
    }
}

/// The items held after offering each of `items` in turn, oldest first.
pub open spec fn queue_after_pushes<T>(q: Seq<T>, slots: nat, items: Seq<T>) -> Seq<T>
    decreases items.len(),
{
    if items.len() == 0 {
        q
    } else {
        queue_after_push(queue_after_pushes(q, slots, items.drop_last()), slots, items.last())
    }
}

/// The items returned by popping a buffer holding `q` until it is empty, in the
/// order the pops return them.
pub open spec fn drained<T>(q: Seq<T>) -> Seq<T>
    decreases q.len(),
{
    if q.len() == 0 {
        Seq::empty()
    } else {
        seq![queue_front(q)->0] + drained(queue_after_pop(q))
    }
}

/// A buffer never holds as many items as it has slots: one slot stays free.
pub proof fn law_push_keeps_a_free_slot<T>(q: Seq<T>, slots: nat, item: T)
    requires
        q.len() < slots,
    ensures
        queue_after_push(q, slots, item).len() < slots,
{
}

/// What one push writes into an empty buffer with room for it, the next pop
/// gives back, and the buffer is empty again.
pub proof fn law_push_then_pop<T>(slots: nat, item: T)
    requires
        slots >= 2,
    ensures
        queue_front(queue_after_push(Seq::<T>::empty(), slots, item)) == Some(item),
        queue_after_pop(queue_after_push(Seq::<T>::empty(), slots, item)) == Seq::<T>::empty(),
{
    assert(queue_after_push(Seq::<T>::empty(), slots, item) =~= seq![item]);
    assert(seq![item].drop_first() =~= Seq::<T>::empty());
}

/// First in, first out: when items pushed onto a buffer holding `q` all fit,
/// popping until empty returns the items of `q`, then the pushed items, each in
/// the order it went in.
pub proof fn law_fifo<T>(q: Seq<T>, slots: nat, items: Seq<T>)
    requires
        q.len() + items.len() < slots,
    ensures
        queue_after_pushes(q, slots, items) == q + items,
        drained(q + items) == q + items,
    decreases items.len(),
{
    if items.len() > 0 {
        law_fifo(q, slots, items.drop_last());
        assert(q + items.drop_last() + seq![items.last()] =~= q + items);
    }
    lemma_drained(q + items);
}

/// Popping a buffer until it is empty returns its items, oldest first.
proof fn lemma_drained<T>(q: Seq<T>)
    ensures
        drained(q) == q,
    decreases q.len(),
{
    if q.len() > 0 {
        lemma_drained(q.drop_first());
        assert(seq![q[0]] + q.drop_first() =~= q);
    }
}

/// A call made on a buffer: a push of an item, or a pop.
pub enum BufferCall<T> {
    Push(T),
    Pop,
}

/// The items, the operations counter and the drops counter of a buffer of
/// `slots` slots after `calls` on a new buffer, each call acting as the contract
/// of `try_push` or `try_pop` says.
pub open spec fn state_after_calls<T>(slots: nat, calls: Seq<BufferCall<T>>) -> (Seq<T>, usize, usize)
    decreases calls.len(), 1nat,
{
    if calls.len() == 0 {
        (Seq::empty(), 0, 0)
    } else {
        let before = state_after_calls(slots, calls.drop_last());
        if last_call_succeeds(slots, calls) {
            match calls.last() {
                BufferCall::Push(item) => (queue_after_push(before.0, slots, item), counter_after_one(before.1), before.2),
                BufferCall::Pop => (queue_after_pop(before.0), counter_after_one(before.1), before.2),
            }
        } else {
            match calls.last() {
                BufferCall::Push(_) => (before.0, before.1, counter_after_one(before.2)),
                BufferCall::Pop => before,
            }
        }
    }
}

/// Whether the last of `calls` succeeds: a push that finds room (`Ok`), or a
/// pop that finds an item (`Some`).
pub open spec fn last_call_succeeds<T>(slots: nat, calls: Seq<BufferCall<T>>) -> bool
    decreases calls.len(), 0nat,
{
    calls.len() > 0 && {
        let items = state_after_calls(slots, calls.drop_last()).0;
        match calls.last() {
            BufferCall::Push(_) => push_accepted(items, slots),
            BufferCall::Pop => items.len() > 0,
        }
    }
}

/// The number of `calls` that succeed.
pub open spec fn successful_calls<T>(slots: nat, calls: Seq<BufferCall<T>>) -> nat
    decreases calls.len(),
{
    if calls.len() == 0 {
        0
    } else {
        successful_calls(slots, calls.drop_last()) + if last_call_succeeds(slots, calls) {
            1nat
        } else {
            0nat
        }
    }
}

/// The number of pushes among `calls` that are refused (`Err`).
pub open spec fn refused_pushes<T>(slots: nat, calls: Seq<BufferCall<T>>) -> nat
    decreases calls.len(),
{
    if calls.len() == 0 {
        0
    } else {
        refused_pushes(slots, calls.drop_last()) + if !last_call_succeeds(slots, calls)
            && calls.last() is Push {
            1nat
        } else {
            0nat
        }
    }
}

/// The counters count: over fewer than `usize::MAX` calls on a new buffer, the
/// operations counter is the number of successful pushes and pops, and the drops
/// counter the number of refused pushes; a pop that finds nothing counts in neither.
pub proof fn law_counters_count_calls<T>(slots: nat, calls: Seq<BufferCall<T>>)
    requires
        calls.len() < usize::MAX,
    ensures
        state_after_calls(slots, calls).1 == successful_calls(slots, calls),
        state_after_calls(slots, calls).2 == refused_pushes(slots, calls),
    decreases calls.len(),
{
    if calls.len() > 0 {
        law_counters_count_calls(slots, calls.drop_last());
        lemma_counts_bounded(slots, calls.drop_last());
    }
}

/// Successful calls and refused pushes are at most all the calls.
proof fn lemma_counts_bounded<T>(slots: nat, calls: Seq<BufferCall<T>>)
    ensures
        successful_calls(slots, calls) + refused_pushes(slots, calls) <= calls.len(),
    decreases calls.len(),
{
    if calls.len() > 0 {
        lemma_counts_bounded(slots, calls.drop_last());
    }
}

/// The counters of a [`LockFreeBuffer`]: completed operations, refused pushes,
/// and the duration of the last completed operation in nanoseconds.
#[derive(Debug)]
pub struct BufferMetrics {
    operations: usize,
    drops: usize,
    latency_ns: usize,
}

/// A fixed-size FIFO ring buffer.
pub struct LockFreeBuffer<T> {
    data: Vec<Option<T>>,
    head: usize,
    tail: usize,
    capacity: usize,
    metrics: BufferMetrics,
}

impl<T> LockFreeBuffer<T> {
    /// The number of slots the buffer was made with.
    pub closed spec fn slots(&self) -> nat {
        self.capacity as nat
    }

    /// The number of operations (successful pushes and pops) recorded.
    pub closed spec fn operations(&self) -> usize {
        self.metrics.operations
    }

    /// The number of pushes refused because the buffer was full.
    pub closed spec fn drops(&self) -> usize {
        self.metrics.drops
    }

    /// The latency of the last successful operation, in nanoseconds.
    pub closed spec fn latency_ns(&self) -> usize {
        self.metrics.latency_ns
    }

    /// Whether slot `j` currently holds a queued item.
    closed spec fn occupied(&self, j: int) -> bool {
        if self.head <= self.tail {
            self.head <= j < self.tail
        } else {
            j >= self.head || j < self.tail
        }
    }

    /// The number of queued items.
    closed spec fn queued(&self) -> nat {
        if self.head <= self.tail {
            (self.tail - self.head) as nat
        } else {
            (self.tail + self.capacity - self.head) as nat
        }
    }

    /// The slot that holds the item at queue position `i`.
    closed spec fn slot(&self, i: int) -> int {
        if self.head + i < self.capacity {
            self.head + i
        } else {
            self.head + i - self.capacity
        }
    }

    /// Well-formedness: the slots between head and tail hold items, the others are empty.
    pub closed spec fn wf(&self) -> bool {
        &&& self.data@.len() == self.capacity
        &&& (self.capacity == 0 ==> self.head == 0 && self.tail == 0)
        &&& (self.capacity > 0 ==> self.head < self.capacity && self.tail < self.capacity)
        &&& forall|j: int|
            0 <= j < self.capacity ==> ((#[trigger] self.data@[j]) is Some <==> self.occupied(j))
    }
}

impl<T> LockFreeBuffer<T> {
    /// A well-formed buffer holds fewer items than it has slots; one without
    /// slots holds none.
    pub proof fn lemma_fewer_items_than_slots(&self)
        requires
            self.wf(),
        ensures
            self.slots() == 0 ==> self@.len() == 0,
            self.slots() > 0 ==> self@.len() < self.slots(),
    {
    }
}

impl<T> View for LockFreeBuffer<T> {
    type V = Seq<T>;

    /// The queued items, oldest first.
    closed spec fn view(&self) -> Seq<T> {
        Seq::new(self.queued(), |i: int| self.data@[self.slot(i)]->0)
    }
}

impl<T> LockFreeBuffer<T> {
    /// Creates an empty buffer with `capacity` slots and zeroed counters.
    pub fn new(capacity: usize) -> (r: Self)
        ensures
            r.wf(),
            r@ == Seq::<T>::empty(),
            r.slots() == capacity,
            r.operations() == 0,
            r.drops() == 0,
            r.latency_ns() == 0,
    {
        let mut data: Vec<Option<T>> = Vec::with_capacity(capacity);
        let mut i: usize = 0;
        while i < capacity
            invariant
                i <= capacity,
                data@.len() == i,
                forall|j: int| 0 <= j < i ==> (#[trigger] data@[j]) is None,
            decreases capacity - i,
        {
            data.push(None);
            i = i + 1;
        }
        let r = LockFreeBuffer {
            data,
            head: 0,
            tail: 0,
            capacity,
            metrics: BufferMetrics { operations: 0, drops: 0, latency_ns: 0 },
        };
        assert(r@ =~= Seq::<T>::empty());
        r
    }

    /// Appends `item` at the back, or hands it back when the buffer is full
    /// (when it already holds `capacity - 1` items) and counts a drop.
    pub fn try_push(&mut self, item: T) -> (r: Result<(), T>)
        requires
            old(self).wf(),
            old(self).slots() > 0,
        ensures
            final(self).wf(),
            final(self).slots() == old(self).slots(),
            old(self)@.len() < old(self).slots(),
            final(self)@ == queue_after_push(old(self)@, old(self).slots(), item),
            r is Ok <==> push_accepted(old(self)@, old(self).slots()),
            r is Err ==> r == Err::<(), T>(item),
            final(self).drops() == if r is Ok {
                old(self).drops()
            } else {
                counter_after_one(old(self).drops())
            },
            final(self).operations() == if r is Ok {
                counter_after_one(old(self).operations())
            } else {
                old(self).operations()
            },
            r is Err ==> final(self).latency_ns() == old(self).latency_ns(),
    {
        let start = instant_now();
        let tail = self.tail;
        let next_tail = if tail + 1 == self.capacity {
            0
        } else {
            tail + 1
        };
        if next_tail == self.head {
            self.metrics.drops = bump_counter(self.metrics.drops);
            return Err(item);
        }
        let ghost before = self@;
        self.data.set(tail, Some(item));
        self.tail = next_tail;
        assert(self@ =~= before.push(item));
        let elapsed = instant_elapsed(&start);
        self.update_metrics(elapsed);
        Ok(())
    }

    /// Removes and returns the item at the front, or `None` when the buffer is empty.
    pub fn try_pop(&mut self) -> (r: Option<T>)
        requires
            old(self).wf(),
        ensures
            final(self).wf(),
            final(self).slots() == old(self).slots(),
            final(self).drops() == old(self).drops(),
            r == queue_front(old(self)@),
            final(self)@ == queue_after_pop(old(self)@),
            final(self).operations() == if r is Some {
                counter_after_one(old(self).operations())
            } else {
                old(self).operations()
            },
            r is None ==> final(self).latency_ns() == old(self).latency_ns(),
    {
        let start = instant_now();
        let head = self.head;
        if head == self.tail {
            return None;
        }
        let ghost before = self@;
        let item = self.data[head].take();
        self.head = if head + 1 == self.capacity {
            0
        } else {
            head + 1
        };
        assert(self@ =~= before.drop_first());
        let elapsed = instant_elapsed(&start);
        self.update_metrics(elapsed);
        item
    }

    /// Records a completed operation that took `elapsed`: stores its whole
    /// nanoseconds (truncated to `usize`) as the latency and counts it.
    fn update_metrics(&mut self, elapsed: Duration)
        ensures
            final(self).metrics.latency_ns == duration_nanos(elapsed) as usize,
            final(self).data == old(self).data,
            final(self).head == old(self).head,
            final(self).tail == old(self).tail,
            final(self).capacity == old(self).capacity,
            final(self).metrics.drops == old(self).metrics.drops,
            final(self).metrics.operations == counter_after_one(old(self).metrics.operations),
    {
        let nanos = duration_as_nanos(&elapsed);
        self.metrics.latency_ns = nanos as usize;
        self.metrics.operations = bump_counter(self.metrics.operations);
    }

    /// The counters: operations, drops, and the last latency as a `Duration`.
    pub fn get_metrics(&self) -> (r: (usize, usize, Duration))
        ensures
            r.0 == self.operations(),
            r.1 == self.drops(),
            r.2 == duration_of_nanos(self.latency_ns() as u64),
    {
        (
            self.metrics.operations,
            self.metrics.drops,
            duration_from_nanos(self.metrics.latency_ns as u64),
        )
    }
}

} // verus!
