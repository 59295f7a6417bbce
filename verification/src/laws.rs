//! The queue's guarantees, stated and proved over its mathematical model:
//! the buffered elements as a sequence, the pushed and popped histories of
//! the two handles, and the spec-level step functions of the consumer.

use vstd::prelude::*;

use crate::handles::{fifo_conserved, pop_step_next, pop_step_result, Consumer, PopStep, Producer};
use crate::queue::BufferedQueue;

verus! {

/// Capacity bound: a well-formed queue never holds fewer than zero nor
/// more than `capacity` elements.
pub proof fn lemma_capacity_bound<T>(queue: BufferedQueue<T>)
    requires
        queue.wf(),
    ensures
        0 <= queue@.len() <= queue.cap(),
{
}

/// FIFO order: whenever conservation holds — every pushed value is
/// popped already or still buffered, in order, as the factory establishes
/// and each push and pop preserves — the consumer's popped history is
/// exactly the first part of the producer's pushed history.  The consumer
/// therefore observes the producer's values in precisely the order they
/// were pushed.
pub proof fn lemma_fifo_order<T>(
    producer: Producer<T>,
    consumer: Consumer<T>,
    queue: BufferedQueue<T>,
)
    requires
        fifo_conserved(producer, consumer, queue),
    ensures
        consumer.popped() == producer.pushed().take(consumer.popped().len() as int),
        forall|i: int|
            0 <= i < consumer.popped().len() ==> consumer.popped()[i] == producer.pushed()[i],
{
    assert(consumer.popped() =~= producer.pushed().take(consumer.popped().len() as int));
}

/// A push keeps the conservation invariant.  The premises are what
/// `Producer::push` ensures when it answers `Pushed`: the value joined
/// the tail of the pushed history and the tail of the buffer alike.
pub proof fn lemma_conserved_after_push<T>(
    producer: Producer<T>,
    consumer: Consumer<T>,
    queue: BufferedQueue<T>,
    post_producer: Producer<T>,
    post_queue: BufferedQueue<T>,
    value: T,
)
    requires
        fifo_conserved(producer, consumer, queue),
        post_producer.pushed() == producer.pushed().push(value),
        post_queue@ == queue@.push(value),
    ensures
        fifo_conserved(post_producer, consumer, post_queue),
{
    assert(producer.pushed().push(value) =~= consumer.popped() + queue@.push(value));
}

/// A pop keeps the conservation invariant.  The premises are what
/// `Consumer::pop` ensures when it returns an element: the buffer's head
/// moved to the tail of the popped history.
pub proof fn lemma_conserved_after_pop<T>(
    producer: Producer<T>,
    consumer: Consumer<T>,
    queue: BufferedQueue<T>,
    post_consumer: Consumer<T>,
    post_queue: BufferedQueue<T>,
)
    requires
        fifo_conserved(producer, consumer, queue),
        queue@.len() > 0,
        post_consumer.popped() == consumer.popped().push(queue@[0]),
        post_queue@ == pop_step_next(queue@),
    ensures
        fifo_conserved(producer, post_consumer, post_queue),
{
    assert(producer.pushed() =~= consumer.popped().push(queue@[0]) + queue@.remove(0));
}

/// No lost wakeup, state side of the producer: when a push finds the
/// queue full and must wait, one pop leaves room, so the retried push is
/// allowed to proceed.
pub proof fn lemma_blocked_push_unblocked_by_pop<T>(buffered: Seq<T>, capacity: usize)
    requires
        capacity >= 1,
        buffered.len() == capacity,
    ensures
        pop_step_next(buffered).len() < capacity,
{
}

/// No lost wakeup, state side of the consumer: when a pop finds the queue
/// empty and must wait, one successful push hands the retried pop exactly
/// the pushed value.
pub proof fn lemma_blocked_pop_unblocked_by_push<T>(buffered: Seq<T>, completed: bool, value: T)
    requires
        buffered.len() == 0,
    ensures
        pop_step_result(buffered.push(value), completed) == (PopStep::Item(value)),
{
}

/// Drain-then-close, in-order part: with the stream complete, the pops
/// that follow still return the buffered elements one by one in their
/// buffered order — completion never pre-empts a buffered element.  After
/// `n` pops the buffer holds `skip(n)` (starting from `skip(0)`, the full
/// buffer), so the `n`-th pop returns element `n` and leaves `skip(n+1)`.
pub proof fn lemma_drain_in_order<T>(buffered: Seq<T>, n: int)
    requires
        0 <= n < buffered.len(),
    ensures
        buffered.skip(0) == buffered,
        pop_step_result(buffered.skip(n), true) == (PopStep::Item(buffered[n])),
        pop_step_next(buffered.skip(n)) == buffered.skip(n + 1),
{
    assert(buffered.skip(0) =~= buffered);
    assert(buffered.skip(n)[0] == buffered[n]);
    assert(buffered.skip(n).remove(0) =~= buffered.skip(n + 1));
}

/// End-of-stream permanence: once the buffer is empty and the stream is
/// complete, a pop returns `EndOfStream` and changes nothing, so every
/// later pop returns `EndOfStream` as well.
pub proof fn lemma_end_of_stream_permanent<T>(buffered: Seq<T>)
    requires
        buffered.len() == 0,
    ensures
        pop_step_result(buffered, true) is EndOfStream,
        pop_step_next(buffered) == buffered,
{
}

} // verus!
