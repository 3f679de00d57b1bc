//! Duplicate-file detection and link-based resolution.
//!
//! The crate hashes file contents into 64-bit fingerprints, groups paths by
//! fingerprint, plans which redundant paths to replace by links to a canonical
//! source, and drives a rollback-capable replacement protocol one filesystem
//! step at a time.  All file and directory I/O is the caller's: the library
//! consumes byte chunks and path strings and hands back decisions.

pub mod hashing;
pub mod index;
pub mod policy;
pub mod replace;
pub mod resolver;

use vstd::prelude::*;

verus! {

} // verus!
