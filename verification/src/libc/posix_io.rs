//! POSIX file I/O.

pub mod stat;
