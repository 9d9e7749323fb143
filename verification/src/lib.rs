//! Race-resistant, symlink-resistant opening of one regular file by
//! absolute path for exclusive read-write access, defending against a
//! hostile or shared filesystem namespace: world-writable intermediate
//! directories, symlink swapping, and check-then-open races.

pub mod error;
pub mod fd;
pub mod paths;
pub mod safe_file;
