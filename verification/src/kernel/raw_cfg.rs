//! The low-level configuration interface: descriptors of kernel objects and
//! a recorder that collects them.
use vstd::prelude::*;

use super::raw::{EntryFn, EventGroupBits, InterruptNum, InterruptPriority, MutexProtocol, QueueOrder, SemaphoreValue};
use crate::closure::Closure;
use crate::time::Duration;

verus! {

/// The static properties of a task.
#[derive(Debug, Clone, Copy, PartialEq, Eq, Structural)]
pub struct TaskDescriptor {
    pub start: EntryFn,
    pub param: usize,
    pub active: bool,
    pub priority: usize,
    pub stack_size: Option<usize>,
}

/// The static properties of an event group.
#[derive(Debug, Clone, Copy, PartialEq, Eq, Structural)]
pub struct EventGroupDescriptor {
    pub initial_bits: EventGroupBits,
    pub queue_order: QueueOrder,
}

/// The static properties of a mutex.
#[derive(Debug, Clone, Copy, PartialEq, Eq, Structural)]
pub struct MutexDescriptor {
    pub protocol: MutexProtocol,
}

/// The static properties of a semaphore.
#[derive(Debug, Clone, Copy, PartialEq, Eq, Structural)]
pub struct SemaphoreDescriptor {
    pub initial: SemaphoreValue,
    pub maximum: SemaphoreValue,
    pub queue_order: QueueOrder,
}

/// The static properties of a timer.
#[derive(Debug, Clone, Copy, PartialEq, Eq, Structural)]
pub struct TimerDescriptor {
    pub start: Closure,
    pub active: bool,
    pub delay: Option<Duration>,
    pub period: Option<Duration>,
}

/// The static properties of an interrupt line. `start` identifies the
/// combined handler of the line (the index of the line's first handler in
/// the sorted handler list), if the line has a handler.
#[derive(Debug, Clone, Copy, PartialEq, Eq, Structural)]
pub struct InterruptLineDescriptor {
    pub line: InterruptNum,
    pub priority: Option<InterruptPriority>,
    pub start: Option<usize>,
    pub enabled: bool,
}

/// Collects the kernel objects defined during configuration. Each definition
/// is given the identifier equal to its position among the objects of its
/// kind.
pub struct RawCfg {
    pub num_task_priority_levels: usize,
    pub startup_hook: Option<EntryFn>,
    pub tasks: Vec<TaskDescriptor>,
    pub event_groups: Vec<EventGroupDescriptor>,
    pub mutexes: Vec<MutexDescriptor>,
    pub semaphores: Vec<SemaphoreDescriptor>,
    pub timers: Vec<TimerDescriptor>,
    pub interrupt_lines: Vec<InterruptLineDescriptor>,
}

impl RawCfg {
    /// A recorder that holds no definition.
    pub fn new() -> (r: RawCfg)
        ensures
            r.num_task_priority_levels == 0,
            r.startup_hook is None,
            r.tasks@.len() == 0,
            r.event_groups@.len() == 0,
            r.mutexes@.len() == 0,
            r.semaphores@.len() == 0,
            r.timers@.len() == 0,
            r.interrupt_lines@.len() == 0,
    {
        RawCfg {
            num_task_priority_levels: 0,
            startup_hook: None,
            tasks: Vec::new(),
            event_groups: Vec::new(),
            mutexes: Vec::new(),
            semaphores: Vec::new(),
            timers: Vec::new(),
            interrupt_lines: Vec::new(),
        }
    }

    /// The settings (the number of priority levels and the startup hook) are
    /// the same in `self` and `other`.
    pub open spec fn same_settings(self, other: RawCfg) -> bool {
        &&& self.num_task_priority_levels == other.num_task_priority_levels
        &&& self.startup_hook == other.startup_hook
    }

    /// The objects of each kind whose flag is `false` are the same in `self`
    /// and `other`.
    pub open spec fn same_objects_except(
        self,
        other: RawCfg,
        tasks: bool,
        event_groups: bool,
        mutexes: bool,
        semaphores: bool,
        timers: bool,
        interrupt_lines: bool,
    ) -> bool {
        &&& (!tasks ==> self.tasks@ == other.tasks@)
        &&& (!event_groups ==> self.event_groups@ == other.event_groups@)
        &&& (!mutexes ==> self.mutexes@ == other.mutexes@)
        &&& (!semaphores ==> self.semaphores@ == other.semaphores@)
        &&& (!timers ==> self.timers@ == other.timers@)
        &&& (!interrupt_lines ==> self.interrupt_lines@ == other.interrupt_lines@)
    }

    /// Nothing but the settings differs between `self` and `other`.
    pub open spec fn same_objects(self, other: RawCfg) -> bool {
        self.same_objects_except(other, false, false, false, false, false, false)
    }
}

/// The basic configuration interface that a kernel provides.
pub trait CfgBase {
    /// Specify the number of task priority levels.
    fn num_task_priority_levels(&mut self, new_value: usize);

    /// Register the combined startup hook.
    fn startup_hook_define(&mut self, func: EntryFn);
}

/// Defining tasks.
pub trait CfgTask: CfgBase {
    fn task_define(&mut self, descriptor: TaskDescriptor) -> usize;
}

/// Defining event groups.
pub trait CfgEventGroup: CfgBase {
    fn event_group_define(&mut self, descriptor: EventGroupDescriptor) -> usize;
}

/// Defining mutexes.
pub trait CfgMutex: CfgBase {
    fn mutex_define(&mut self, descriptor: MutexDescriptor) -> usize;
}

/// Defining semaphores.
pub trait CfgSemaphore: CfgBase {
    fn semaphore_define(&mut self, descriptor: SemaphoreDescriptor) -> usize;
}

/// Defining timers.
pub trait CfgTimer: CfgBase {
    fn timer_define(&mut self, descriptor: TimerDescriptor) -> usize;
}

/// Defining interrupt lines.
pub trait CfgInterruptLine: CfgBase {
    fn interrupt_line_define(&mut self, descriptor: InterruptLineDescriptor);
}

impl CfgBase for RawCfg {
    fn num_task_priority_levels(&mut self, new_value: usize)
        ensures
            final(self).num_task_priority_levels == new_value,
            final(self).startup_hook == old(self).startup_hook,
            final(self).same_objects(*old(self)),
    {
        self.num_task_priority_levels = new_value;
    }

    fn startup_hook_define(&mut self, func: EntryFn)
        ensures
            final(self).startup_hook == Some(func),
            final(self).num_task_priority_levels == old(self).num_task_priority_levels,
            final(self).same_objects(*old(self)),
    {
        self.startup_hook = Some(func);
    }
}

impl CfgTask for RawCfg {
    fn task_define(&mut self, descriptor: TaskDescriptor) -> (id: usize)
        ensures
            id == old(self).tasks@.len(),
            final(self).tasks@ == old(self).tasks@.push(descriptor),
            final(self).same_settings(*old(self)),
            final(self).same_objects_except(*old(self), true, false, false, false, false, false),
    {
        let id = self.tasks.len();
        self.tasks.push(descriptor);
        id
    }
}

impl CfgEventGroup for RawCfg {
    fn event_group_define(&mut self, descriptor: EventGroupDescriptor) -> (id: usize)
        ensures
            id == old(self).event_groups@.len(),
            final(self).event_groups@ == old(self).event_groups@.push(descriptor),
            final(self).same_settings(*old(self)),
            final(self).same_objects_except(*old(self), false, true, false, false, false, false),
    {
        let id = self.event_groups.len();
        self.event_groups.push(descriptor);
        id
    }
}

impl CfgMutex for RawCfg {
    fn mutex_define(&mut self, descriptor: MutexDescriptor) -> (id: usize)
        ensures
            id == old(self).mutexes@.len(),
            final(self).mutexes@ == old(self).mutexes@.push(descriptor),
            final(self).same_settings(*old(self)),
            final(self).same_objects_except(*old(self), false, false, true, false, false, false),
    {
        let id = self.mutexes.len();
        self.mutexes.push(descriptor);
        id
    }
}

impl CfgSemaphore for RawCfg {
    fn semaphore_define(&mut self, descriptor: SemaphoreDescriptor) -> (id: usize)
        ensures
            id == old(self).semaphores@.len(),
            final(self).semaphores@ == old(self).semaphores@.push(descriptor),
            final(self).same_settings(*old(self)),
            final(self).same_objects_except(*old(self), false, false, false, true, false, false),
    {
        let id = self.semaphores.len();
        self.semaphores.push(descriptor);
        id
    }
}

impl CfgTimer for RawCfg {
    fn timer_define(&mut self, descriptor: TimerDescriptor) -> (id: usize)
        ensures
            id == old(self).timers@.len(),
            final(self).timers@ == old(self).timers@.push(descriptor),
            final(self).same_settings(*old(self)),
            final(self).same_objects_except(*old(self), false, false, false, false, true, false),
    {
        let id = self.timers.len();
        self.timers.push(descriptor);
        id
    }
}

impl CfgInterruptLine for RawCfg {
    fn interrupt_line_define(&mut self, descriptor: InterruptLineDescriptor)
        ensures
            final(self).interrupt_lines@ == old(self).interrupt_lines@.push(descriptor),
            final(self).same_settings(*old(self)),
            final(self).same_objects_except(*old(self), false, false, false, false, false, true),
    {
        self.interrupt_lines.push(descriptor);
    }
}

} // verus!
