//! Detects when a spawned worker has stalled past a deadline.
//!
//! The crate is the verified core of a test-harness watchdog: a [`shutter::Shutter`]
//! tracks the identities of spawned worker threads, and its step functions decide,
//! for each completion signal received over a shared channel, whether the wait is
//! over, still in progress, lost to the deadline, or in a broken state.  The host
//! harness owns the threads, the channel and the timer; every decision it takes is
//! a call into this crate.

pub mod laws;
pub mod shutter;
