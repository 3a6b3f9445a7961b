//! Event groups.
use vstd::prelude::*;

use super::cfg::Cfg;
use super::raw::{EventGroupBits, QueueOrder};
use super::raw_cfg::{CfgEventGroup, EventGroupDescriptor};

verus! {

/// A reference to an event group defined in a configuration.
#[derive(Debug, Clone, Copy, PartialEq, Eq, Structural)]
pub struct EventGroupRef {
    pub id: usize,
}

impl EventGroupRef {
    /// Construct an `EventGroupDefiner` to define an event group in a
    /// configuration function.
    pub fn define() -> (r: EventGroupDefiner)
        ensures
            r.inner == (EventGroupDescriptor { initial_bits: 0, queue_order: QueueOrder::TaskPriority }),
    {
        EventGroupDefiner::new()
    }
}

/// The definer (static builder) for [`EventGroupRef`].
#[derive(Debug, Clone, Copy, PartialEq, Eq, Structural)]
pub struct EventGroupDefiner {
    pub inner: EventGroupDescriptor,
}

impl EventGroupDefiner {
    fn new() -> (r: Self)
        ensures
            r.inner == (EventGroupDescriptor { initial_bits: 0, queue_order: QueueOrder::TaskPriority }),
    {
        EventGroupDefiner { inner: EventGroupDescriptor { initial_bits: 0, queue_order: QueueOrder::TaskPriority } }
    }

    /// Specify the initial bit pattern. Defaults to all bits clear.
    pub fn initial(self, initial: EventGroupBits) -> (r: Self)
        ensures
            r.inner == (EventGroupDescriptor { initial_bits: initial, ..self.inner }),
    {
        EventGroupDefiner { inner: EventGroupDescriptor { initial_bits: initial, ..self.inner } }
    }

    /// Specify how tasks are sorted in the wait queue. Defaults to
    /// `TaskPriority`.
    pub fn queue_order(self, queue_order: QueueOrder) -> (r: Self)
        ensures
            r.inner == (EventGroupDescriptor { queue_order, ..self.inner }),
    {
        EventGroupDefiner { inner: EventGroupDescriptor { queue_order, ..self.inner } }
    }

    /// Complete the definition of the event group.
    pub fn finish(self, cfg: &mut Cfg) -> (r: EventGroupRef)
        ensures
            r.id == old(cfg).raw.event_groups@.len(),
            final(cfg).raw.event_groups@ == old(cfg).raw.event_groups@.push(self.inner),
            final(cfg).raw.same_settings(old(cfg).raw),
            final(cfg).raw.same_objects_except(old(cfg).raw, false, true, false, false, false, false),
            final(cfg).same_except_raw(*old(cfg)),
    {
        let id = cfg.raw.event_group_define(self.inner);
        EventGroupRef { id }
    }
}

} // verus!
