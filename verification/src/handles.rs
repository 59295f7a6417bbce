//! The producer and consumer roles over one shared queue.
//!
//! Each role is a handle whose step functions decide, from the queue's
//! state, whether the caller may proceed or must wait; a threaded caller
//! wraps the `Wait` outcomes in its own blocking loop.

use vstd::prelude::*;

use crate::queue::BufferedQueue;

verus! {

/// The outcome of one push attempt.
#[derive(Debug, PartialEq, Eq)]
pub enum PushStep {
    /// The queue was full; nothing changed, the caller must retry
    /// after a pop has made room.
    Wait,
    /// The value was appended to the tail of the queue.
    Pushed,
}

/// The handle through which the single producer feeds the queue.
pub struct Producer<T> {
    /// every value this producer has pushed, oldest first
    pushed: Ghost<Seq<T>>,
}

impl<T> Producer<T> {
    /// Every value this producer has pushed so far, oldest first.
    pub closed spec fn pushed(&self) -> Seq<T> {
        self.pushed@
    }

    /// One attempt of the producer's push loop: appends `value` if the
    /// queue has room, and otherwise reports that the caller must wait.
    pub fn push(&mut self, queue: &mut BufferedQueue<T>, value: T) -> (step: PushStep)
        requires
            old(queue).wf(),
        ensures
            final(queue).wf(),
            final(queue).cap() == old(queue).cap(),
            final(queue).completed() == old(queue).completed(),
            step is Pushed <==> old(queue)@.len() < old(queue).cap(),
            step is Pushed ==> final(queue)@ == old(queue)@.push(value)
                && final(self).pushed() == old(self).pushed().push(value),
            step is Wait ==> final(queue)@ == old(queue)@
                && final(self).pushed() == old(self).pushed(),
    {
        if queue.push(value) {
            proof {
                self.pushed@ = self.pushed@.push(value);
            }
            PushStep::Pushed
        } else {
            PushStep::Wait
        }
    }

    /// Returns the queue's current length.
    pub fn len(&self, queue: &BufferedQueue<T>) -> (n: usize)
        ensures
            n == queue@.len(),
    {
        queue.len()
    }

    /// Releases the producer role: the stream is declared complete, so the
    /// consumer can drain what is buffered and then terminate.  Consuming
    /// the handle guarantees no push ever follows the completion signal.
    pub fn release(self, queue: &mut BufferedQueue<T>)
        ensures
            final(queue)@ == old(queue)@,
            final(queue).cap() == old(queue).cap(),
            final(queue).is_full() == old(queue).is_full(),
            final(queue).is_empty() == old(queue).is_empty(),
            final(queue).completed(),
    {
        queue.mark_elements_processed();
    }
}

/// The outcome of one pop attempt.
#[derive(Debug, PartialEq, Eq)]
pub enum PopStep<T> {
    /// The queue was empty but the stream is still open; nothing changed,
    /// the caller must retry after a push or after the producer's release.
    Wait,
    /// The queue was empty and the stream is complete: no element will
    /// ever arrive again.
    EndOfStream,
    /// The oldest buffered element, removed from the queue.
    Item(T),
}

/// What one pop attempt returns, given the buffered elements and the
/// completion flag: the oldest element while any is buffered, end of
/// stream once the buffer is empty and the stream is complete, and
/// otherwise an instruction to wait.
pub open spec fn pop_step_result<T>(buffered: Seq<T>, completed: bool) -> PopStep<T> {
    if buffered.len() > 0 {
        PopStep::Item(buffered[0])
    } else if completed {
        PopStep::EndOfStream
    } else {
        PopStep::Wait
    }
}

/// The buffered elements after one pop attempt: the oldest element is
/// removed if any is buffered, and nothing changes otherwise.
pub open spec fn pop_step_next<T>(buffered: Seq<T>) -> Seq<T> {
    if buffered.len() > 0 {
        buffered.remove(0)
    } else {
        buffered
    }
}

/// The handle through which the single consumer drains the queue.
pub struct Consumer<T> {
    /// every value this consumer has popped, oldest first
    popped: Ghost<Seq<T>>,
}

impl<T> Consumer<T> {
    /// Every value this consumer has popped so far, oldest first.
    pub closed spec fn popped(&self) -> Seq<T> {
        self.popped@
    }

    /// One attempt of the consumer's pop loop: removes and returns the
    /// oldest element if any is buffered; otherwise reports end of stream
    /// once the producer has released, and that the caller must wait
    /// while the stream is still open.
    pub fn pop(&mut self, queue: &mut BufferedQueue<T>) -> (step: PopStep<T>)
        requires
            old(queue).wf(),
        ensures
            final(queue).wf(),
            final(queue).cap() == old(queue).cap(),
            final(queue).completed() == old(queue).completed(),
            step == pop_step_result(old(queue)@, old(queue).completed()),
            final(queue)@ == pop_step_next(old(queue)@),
            old(queue)@.len() > 0 ==> final(self).popped()
                == old(self).popped().push(old(queue)@[0]),
            old(queue)@.len() == 0 ==> final(self).popped() == old(self).popped(),
    {
        match queue.pop() {
            Some(value) => {
                proof {
                    self.popped@ = self.popped@.push(value);
                }
                PopStep::Item(value)
            }
            None => {
                if queue.elements_processed() {
                    PopStep::EndOfStream
                } else {
                    PopStep::Wait
                }
            }
        }
    }

    /// Returns the queue's current length.
    pub fn len(&self, queue: &BufferedQueue<T>) -> (n: usize)
        ensures
            n == queue@.len(),
    {
        queue.len()
    }
}

/// Conservation of elements: every pushed value is either already popped
/// or still buffered, in order.  This is the link through which the
/// consumer's output is a prefix of the producer's input.
pub open spec fn fifo_conserved<T>(
    producer: Producer<T>,
    consumer: Consumer<T>,
    queue: BufferedQueue<T>,
) -> bool {
    producer.pushed() == consumer.popped() + queue@
}

/// Returns a queue with the given capacity (clamped to at least 1)
/// together with the producer and consumer handles that share it.
pub fn buffered_queue<T>(capacity: usize) -> (r: (BufferedQueue<T>, Producer<T>, Consumer<T>))
    ensures
        r.0.wf(),
        r.0@ == Seq::<T>::empty(),
        r.0.cap() == crate::queue::effective_capacity(capacity),
        !r.0.completed(),
        r.1.pushed() == Seq::<T>::empty(),
        r.2.popped() == Seq::<T>::empty(),
        fifo_conserved(r.1, r.2, r.0),
{
    let queue = BufferedQueue::new(capacity);
    let producer = Producer { pushed: Ghost(Seq::empty()) };
    let consumer = Consumer { popped: Ghost(Seq::empty()) };
    proof {
        assert(producer.pushed() =~= consumer.popped() + queue@);
    }
    (queue, producer, consumer)
}

} // verus!
