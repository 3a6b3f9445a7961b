//! Semaphores.
use vstd::prelude::*;

use super::cfg::Cfg;
use super::raw::{QueueOrder, SemaphoreValue};
use super::raw_cfg::{CfgSemaphore, SemaphoreDescriptor};

verus! {

/// A reference to a semaphore defined in a configuration.
#[derive(Debug, Clone, Copy, PartialEq, Eq, Structural)]
pub struct SemaphoreRef {
    pub id: usize,
}

/// A semaphore defined in a configuration.
pub type StaticSemaphore = SemaphoreRef;

impl SemaphoreRef {
    /// Construct a `SemaphoreDefiner` to define a semaphore in a
    /// configuration function.
    pub fn define() -> (r: SemaphoreDefiner)
        ensures
            r == SemaphoreDefiner::initial_spec(),
    {
        SemaphoreDefiner::new()
    }
}

/// The definer (static builder) for [`SemaphoreRef`].
#[derive(Debug, Clone, Copy, PartialEq, Eq, Structural)]
pub struct SemaphoreDefiner {
    pub initial_value: Option<SemaphoreValue>,
    pub maximum_value: Option<SemaphoreValue>,
    pub queue_order: QueueOrder,
}

impl SemaphoreDefiner {
    pub open spec fn initial_spec() -> SemaphoreDefiner {
        SemaphoreDefiner { initial_value: None, maximum_value: None, queue_order: QueueOrder::TaskPriority }
    }

    fn new() -> (r: Self)
        ensures
            r == Self::initial_spec(),
    {
        SemaphoreDefiner { initial_value: None, maximum_value: None, queue_order: QueueOrder::TaskPriority }
    }

    /// Specify the initial value. It may be specified only once.
    pub fn initial(self, initial: SemaphoreValue) -> (r: Self)
        requires
            self.initial_value is None,
        ensures
            r == (SemaphoreDefiner { initial_value: Some(initial), ..self }),
    {
        SemaphoreDefiner { initial_value: Some(initial), ..self }
    }

    /// Specify the maximum value. It may be specified only once.
    pub fn maximum(self, maximum: SemaphoreValue) -> (r: Self)
        requires
            self.maximum_value is None,
        ensures
            r == (SemaphoreDefiner { maximum_value: Some(maximum), ..self }),
    {
        SemaphoreDefiner { maximum_value: Some(maximum), ..self }
    }

    /// Specify how tasks are sorted in the wait queue. Defaults to
    /// `TaskPriority`.
    pub fn queue_order(self, queue_order: QueueOrder) -> (r: Self)
        ensures
            r == (SemaphoreDefiner { queue_order, ..self }),
    {
        SemaphoreDefiner { queue_order, ..self }
    }

    /// Complete the definition of the semaphore. The initial and maximum
    /// values must have been specified.
    pub fn finish(self, cfg: &mut Cfg) -> (r: SemaphoreRef)
        requires
            self.initial_value is Some,
            self.maximum_value is Some,
        ensures
            r.id == old(cfg).raw.semaphores@.len(),
            final(cfg).raw.semaphores@ == old(cfg).raw.semaphores@.push(
                SemaphoreDescriptor {
                    initial: self.initial_value->0,
                    maximum: self.maximum_value->0,
                    queue_order: self.queue_order,
                },
            ),
            final(cfg).raw.same_settings(old(cfg).raw),
            final(cfg).raw.same_objects_except(old(cfg).raw, false, false, false, true, false, false),
            final(cfg).same_except_raw(*old(cfg)),
    {
        let initial = match self.initial_value {
            Some(v) => v,
            None => 0,
        };
        let maximum = match self.maximum_value {
            Some(v) => v,
            None => 0,
        };
        let id = cfg.raw.semaphore_define(
            SemaphoreDescriptor { initial, maximum, queue_order: self.queue_order },
        );
        SemaphoreRef { id }
    }
}

} // verus!
