//! Synchronization primitives built on kernel objects.
pub mod mutex;
pub mod recursive_mutex;
pub mod source;
