//! Pieces of the guest's C library that are computed on the host.

pub mod posix_io;
pub mod unistd;
