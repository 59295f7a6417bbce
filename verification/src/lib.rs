//! A bounded FIFO queue that decouples a producer from a consumer.
//!
//! The queue holds at most `capacity` elements; a producer that finds it
//! full and a consumer that finds it empty must stand back and retry, so a
//! fast side is throttled to the pace of the slow one instead of growing
//! memory without bound.  A one-shot completion flag lets the consumer
//! drain the remaining elements and then terminate cleanly.
//!
//! The queue itself, the full/empty signalling state and the completion
//! flag are verified here as one sequential state machine.  The blocking
//! wait loops that a threaded caller wraps around `Producer::push` and
//! `Consumer::pop` live outside the library: each verified step function
//! reports `Wait` when its caller would have to block.

pub mod handles;
pub mod laws;
pub mod queue;

pub use handles::{buffered_queue, Consumer, PopStep, Producer, PushStep};
pub use queue::{BufferedQueue, Operation};
