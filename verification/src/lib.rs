//! The decision logic of a single-directory filesystem watcher.
//!
//! A watch is backed by one of two strategies. Where the operating system
//! reports new entries reliably, its own notifications are used as they are.
//! Where it does not, the directory is listed periodically and each listing
//! is compared with the one before it; the entries that appeared and the
//! entries that vanished are reported as one event each.
//!
//! This crate holds everything that is decided or computed on the way: the
//! choice of strategy, the snapshot of a directory, the difference of two
//! snapshots, and the polling loop as a state machine. Listing directories,
//! sleeping and delivering events are left to the caller, which drives the
//! state machine and performs the actions it asks for.

pub mod cycle;
pub mod event;
pub mod poll;
pub mod snapshot;
pub mod strategy;
