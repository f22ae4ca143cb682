//! A Monte-Carlo benchmark harness for an on-policy reinforcement-learning
//! algorithm over a small grid world.
//!
//! The verified core consists of:
//! - [`window::LimitedList`]: a bounded circular history buffer that records
//!   the most recent values pushed into it and can be normalized and drained
//!   in chronological order;
//! - [`grid`]: the grid-world state space — coordinates, the eight-way action
//!   set with boundary clamping, and the sparse reward lookup;
//! - [`harness`]: configuration validation and the accounting that partitions
//!   a requested repeat count across a fixed worker pool.
//!
//! Floating-point learning updates, random value-table initialization and the
//! worker threads themselves live outside the verified core and drive it
//! through these types.

pub mod grid;
pub mod harness;
pub mod rng;
pub mod window;

pub use window::LimitedList;
pub use window::LimitedListIterator;
