//! Safe building blocks for Linux's `openat2()` system call: the request it takes, the
//! resolution flags, the truncation that emulates `open()`, the reading of its raw
//! outcome and of the capability probes, and the process-wide probe cache.

pub mod cache;
pub mod how;
pub mod resolve;
pub mod syscall;

pub use how::{OpenFlagValues, OpenHow};
pub use resolve::ResolveFlags;
