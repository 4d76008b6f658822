//! A bounded FIFO queue over a fixed ring of slots, shared between threads
//! behind one lock, whose `push` waits for room and whose `pop` waits for an
//! element.

pub mod fifo;
pub mod queue;
pub mod storage;

pub use queue::RingQueue;
pub use storage::Inner;
