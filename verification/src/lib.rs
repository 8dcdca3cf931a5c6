//! Verified core of a directory/object-store synchronizer.
//!
//! The library holds the logic that decides what a sync run does: how a
//! remote object key maps to a local path (and back), whether a local file
//! already matches a remote object's content digest, and what transfer each
//! entry needs. The surrounding program performs the actual network and
//! file I/O and feeds plain values into these functions.

pub mod digest;
pub mod endpoint;
pub mod pathmap;
pub mod sync;
pub mod strutil;
