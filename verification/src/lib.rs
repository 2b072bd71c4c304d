//! Verified core of a secure disk eraser.
//!
//! The engine overwrites a byte-addressable target with one or more
//! fixed-size patterns chosen by a wipe policy, tracks progress, and
//! samples the final pass to check that it took. Device discovery and
//! the actual device I/O live outside this crate; the engine works on
//! plain byte buffers and exposes the block arithmetic that a device
//! loop needs.

pub mod blocks;
pub mod eraser;
pub mod policy;
pub mod progress;
