//! A small concurrency-oriented utility library built around a
//! mutual-exclusion counter: a value that several workers may increment,
//! one at a time, and read back once all of them are done.
//!
//! The counter itself is a plain verified state machine: exclusive access
//! is what `&mut` grants within one thread, and what a lock grants across
//! threads when an embedding program wraps the counter in one. Poisoning of
//! that lock is modelled here as an explicit flag on the counter state.

pub mod counter;
pub mod person;
pub mod text;
