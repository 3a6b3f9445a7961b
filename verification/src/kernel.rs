//! The kernel interface: configuration of kernel objects.
pub mod cfg;
pub mod error;
pub mod event_group;
pub mod hook;
pub mod hunk;
pub mod interrupt;
pub mod mutex;
pub mod raw;
pub mod raw_cfg;
pub mod semaphore;
pub mod task;
pub mod timer;
pub mod wait;
