//! An epoch-based reclamation core.
//!
//! Many readers traverse shared, lock-free structures while removed nodes
//! must not be destroyed under them.  This library models the coordination
//! part of that problem: a global generation counter, a per-thread pin
//! protocol, three reclamation queues selected by generation modulo three,
//! and an advancement rule that decides when the actions queued two
//! generations back have become safe to hand out for execution.
//!
//! The [`Collector`] owns all shared state and is driven explicitly:
//! threads are registered and identified by index, pinning produces a
//! [`Shield`], retiring enqueues a [`Deferred`] action token, and a
//! collection cycle returns the batch of tokens whose execution has become
//! safe.  The safety, conservation, liveness and monotonicity laws of the
//! protocol are proved in [`collector`]; the pin-depth law in
//! [`thread_state`].

pub mod collector;
pub mod deferred;
pub mod drain_queue;
pub mod epoch;
pub mod shield;
pub mod thread_state;

pub use collector::Collector;
pub use collector::CollectorView;
pub use deferred::Deferred;
pub use drain_queue::DrainQueue;
pub use epoch::Epoch;
pub use shield::CowShield;
pub use shield::Shield;
pub use thread_state::ThreadState;
