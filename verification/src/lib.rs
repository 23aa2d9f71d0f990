//! A reactive-value primitive: a `Timeline` is a cell holding the most
//! recently published value of a stream. Derived timelines are registered
//! with `map` (a pure transformation of every published value) or `bind`
//! (a chain function yielding, for every published value, a timeline whose
//! current value is forwarded once). Publishing a value stores it and
//! propagates it synchronously through every registered subscription.
//!
//! `Timeline` is the single-threaded network; `ThreadSafeTimeline` guards
//! the same verified network with a reader-writer lock so that threads
//! sharing one handle may publish and read concurrently.

pub mod laws;
pub mod nullable;
pub mod ops;
pub mod shared;
pub mod timeline;

pub use nullable::Nullable;
pub use ops::{IntChain, IntOp};
pub use shared::ThreadSafeTimeline;
pub use timeline::{Action, ChainFn, Subscription, Timeline, TimelineCell, TimelineId, Transform};
