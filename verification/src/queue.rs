//! The queue core: a bounded FIFO buffer, the full/empty signalling flags
//! and the one-shot completion flag, kept consistent as one unit of state.

use vstd::prelude::*;

verus! {

/// The operation that was just performed on the buffer, telling
/// [`BufferedQueue::signal_to_threads`] which flags may have changed.
pub enum Operation {
    Push,
    Pop,
}

/// The capacity actually used for a requested one: values below 1 are
/// clamped to 1, so the queue can always hold at least one element.
pub open spec fn effective_capacity(requested: usize) -> usize {
    if requested < 1 {
        1usize
    } else {
        requested
    }
}

/// A queue with a fixed maximum capacity, for pipelines in which one side
/// produces faster than the other consumes.  Once the buffer holds
/// `capacity` elements a push is refused until a pop makes room, bounding
/// the memory the pipeline can occupy.
pub struct BufferedQueue<T> {
    /// the buffered elements, oldest first
    data: Vec<T>,

    /// the maximum number of elements allowed in the queue at a given time
    capacity: usize,

    /// mirrors "the buffer is full"; waiting producers watch this flag
    is_full_: bool,

    /// mirrors "the buffer is empty"; waiting consumers watch this flag
    is_empty_: bool,

    /// set once the producer has handed over all its data; never reset
    elements_processed: bool,
}

impl<T> View for BufferedQueue<T> {
    type V = Seq<T>;

    /// The buffered elements, oldest first.
    closed spec fn view(&self) -> Seq<T> {
        self.data@
    }
}

impl<T> BufferedQueue<T> {
    /// The maximum number of elements allowed in the queue at a given time.
    pub closed spec fn cap(&self) -> usize {
        self.capacity
    }

    /// Whether the full flag is set.
    pub closed spec fn is_full(&self) -> bool {
        self.is_full_
    }

    /// Whether the empty flag is set.
    pub closed spec fn is_empty(&self) -> bool {
        self.is_empty_
    }

    /// Whether the producer has declared the stream complete.
    pub closed spec fn completed(&self) -> bool {
        self.elements_processed
    }

    /// Well-formedness: the buffer never exceeds the (positive) capacity,
    /// and each flag agrees with the buffer length it mirrors.
    pub open spec fn wf(&self) -> bool {
        &&& self.cap() >= 1
        &&& self@.len() <= self.cap()
        &&& self.is_full() == (self@.len() == self.cap())
        &&& self.is_empty() == (self@.len() == 0)
    }

    /// Creates an empty queue.  A requested capacity below 1 is clamped
    /// to 1; the stream starts open.
    pub fn new(capacity: usize) -> (queue: Self)
        ensures
            queue.wf(),
            queue@ == Seq::<T>::empty(),
            queue.cap() == effective_capacity(capacity),
            !queue.completed(),
    {
        let capacity: usize = if capacity < 1 {
            1
        } else {
            capacity
        };
        Self {
            data: Vec::new(),
            capacity,
            is_full_: false,
            is_empty_: true,
            elements_processed: false,
        }
    }

    /// Returns the queue's capacity.
    pub fn capacity(&self) -> (c: usize)
        ensures
            c == self.cap(),
    {
        self.capacity
    }

    /// Returns the queue's current length.
    pub fn len(&self) -> (n: usize)
        ensures
            n == self@.len(),
    {
        self.data.len()
    }

    /// Whether the queue still has room for another element.
    fn ensure_has_space(&self) -> (has_space: bool)
        requires
            self.wf(),
        ensures
            has_space == (self@.len() < self.cap()),
    {
        self.data.len() != self.capacity
    }

    /// Appends `value` to the tail of the queue and returns `true` if the
    /// queue had space, and otherwise leaves the queue unchanged and
    /// returns `false`.
    pub fn push(&mut self, value: T) -> (pushed: bool)
        requires
            old(self).wf(),
        ensures
            final(self).wf(),
            final(self).cap() == old(self).cap(),
            final(self).completed() == old(self).completed(),
            pushed <==> old(self)@.len() < old(self).cap(),
            pushed ==> final(self)@ == old(self)@.push(value),
            !pushed ==> final(self)@ == old(self)@,
    {
        if self.ensure_has_space() {
            self.data.push(value);
            self.signal_to_threads(Operation::Push);
            true
        } else {
            false
        }
    }

    /// Removes and returns the oldest element, or returns `None` and
    /// leaves the queue unchanged if it is empty.
    pub fn pop(&mut self) -> (popped: Option<T>)
        requires
            old(self).wf(),
        ensures
            final(self).wf(),
            final(self).cap() == old(self).cap(),
            final(self).completed() == old(self).completed(),
            old(self)@.len() > 0 ==> popped == Some(old(self)@[0])
                && final(self)@ == old(self)@.remove(0),
            old(self)@.len() == 0 ==> popped is None && final(self)@ == old(self)@,
    {
        let popped_element = if self.data.len() > 0 {
            Some(self.data.remove(0))
        } else {
            None
        };
        self.signal_to_threads(Operation::Pop);
        popped_element
    }

    /// Recomputes the full and empty flags after `operation` has changed
    /// the buffer, so that waiters watching either flag see the queue's
    /// state as it now is.
    pub fn signal_to_threads(&mut self, operation: Operation)
        requires
            operation is Push ==> old(self)@.len() >= 1 && !old(self).is_full(),
            operation is Pop ==> old(self)@.len() < old(self).cap()
                && (old(self)@.len() > 0 ==> !old(self).is_empty()),
        ensures
            final(self)@ == old(self)@,
            final(self).cap() == old(self).cap(),
            final(self).completed() == old(self).completed(),
            final(self).is_full() == (old(self)@.len() == old(self).cap()),
            final(self).is_empty() == (old(self)@.len() == 0),
    {
        let is_empty = self.data.len() == 0;
        let is_full = self.data.len() == self.capacity;

        match operation {
            // push => (empty -> false, full -> true?)
            Operation::Push => {
                // only update state if the queue was previously empty
                if self.is_empty_ {
                    self.is_empty_ = false;
                }
                if is_full {
                    self.is_full_ = true;
                }
            }
            // pop => (empty -> true?, full -> false)
            Operation::Pop => {
                // only update state if the queue was previously full
                if self.is_full_ {
                    self.is_full_ = false;
                }
                if is_empty {
                    self.is_empty_ = true;
                }
            }
        }
    }

    /// Declares the stream complete: no further input will ever arrive.
    /// The flag only ever moves from `false` to `true`, and setting it
    /// again changes nothing.
    pub fn mark_elements_processed(&mut self)
        ensures
            final(self)@ == old(self)@,
            final(self).cap() == old(self).cap(),
            final(self).is_full() == old(self).is_full(),
            final(self).is_empty() == old(self).is_empty(),
            final(self).completed(),
    {
        self.elements_processed = true;
    }

    /// Whether the producer has declared the stream complete.
    pub fn elements_processed(&self) -> (done: bool)
        ensures
            done == self.completed(),
    {
        self.elements_processed
    }
}

} // verus!
