//! Toolchain compatibility probing.
//!
//! The library holds the verified core of a tool that measures, for a set of
//! third-party libraries, the oldest compiler toolchain release each library
//! builds against: the binary search over an ordered version list, the
//! per-version probe protocol, the lock-artifact parser, the scaffold text
//! generation, and the result records.  The surrounding process work
//! (temporary directories, subprocess calls, file output) is done by an
//! unverified front end that drives these functions.

pub mod lockfile;
pub mod probe;
pub mod report;
pub mod scaffold;
pub mod search;
pub mod text;
pub mod version;

