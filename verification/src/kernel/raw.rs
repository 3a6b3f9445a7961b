//! Types shared by the kernel interface.
use vstd::prelude::*;

verus! {

/// Specifies the sorting order of a wait queue.
#[derive(Debug, Clone, Copy, PartialEq, Eq, Structural)]
pub enum QueueOrder {
    /// The wait queue is processed in a FIFO order.
    Fifo,
    /// The wait queue is processed in a task priority order. Tasks with the
    /// same priorities follow a FIFO order.
    TaskPriority,
}

/// Specifies the locking protocol to be followed by a mutex.
#[derive(Debug, Clone, Copy, PartialEq, Eq, Structural)]
pub enum MutexProtocol {
    /// Locking the mutex does not affect the priority of the owning task.
    NoProtocol,
    /// Locking the mutex raises the effective priority of the owning task to
    /// the mutex's priority ceiling.
    Ceiling(usize),
}

/// Options for waiting on an event group.
#[derive(Debug, Clone, Copy, PartialEq, Eq, Structural)]
pub struct EventGroupWaitFlags {
    pub bits: u8,
}

impl EventGroupWaitFlags {
    /// Wait for all of the specified bits to be set.
    pub fn all() -> (r: Self)
        ensures
            r.bits == 1,
    {
        EventGroupWaitFlags { bits: 1 }
    }

    /// Clear the specified bits after waiting for them.
    pub fn clear() -> (r: Self)
        ensures
            r.bits == 2,
    {
        EventGroupWaitFlags { bits: 2 }
    }

    /// No flags.
    pub fn empty() -> (r: Self)
        ensures
            r.bits == 0,
    {
        EventGroupWaitFlags { bits: 0 }
    }
}

/// Unsigned integer type backing event groups.
pub type EventGroupBits = u32;

/// Unsigned integer type representing the number of permits held by a
/// semaphore.
pub type SemaphoreValue = usize;

/// Numeric value used to identify interrupt lines.
pub type InterruptNum = usize;

/// Priority value for an interrupt line.
pub type InterruptPriority = i16;

/// The identifier of an entry function (a task entry point, a startup hook,
/// or an interrupt handler) that takes one word as its parameter.
pub type EntryFn = usize;

} // verus!
