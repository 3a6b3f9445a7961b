//! Mutexes.
use vstd::prelude::*;

use super::cfg::Cfg;
use super::raw::MutexProtocol;
use super::raw_cfg::{CfgMutex, MutexDescriptor};

verus! {

/// A reference to a mutex defined in a configuration.
#[derive(Debug, Clone, Copy, PartialEq, Eq, Structural)]
pub struct MutexRef {
    pub id: usize,
}

/// A mutex defined in a configuration.
pub type StaticMutex = MutexRef;

impl MutexRef {
    /// Construct a `MutexDefiner` to define a mutex in a configuration
    /// function.
    pub fn define() -> (r: MutexDefiner)
        ensures
            r.inner == (MutexDescriptor { protocol: MutexProtocol::NoProtocol }),
    {
        MutexDefiner::new()
    }
}

/// The definer (static builder) for [`MutexRef`].
#[derive(Debug, Clone, Copy, PartialEq, Eq, Structural)]
pub struct MutexDefiner {
    pub inner: MutexDescriptor,
}

impl MutexDefiner {
    /// A definer of a mutex without a locking protocol.
    pub fn new() -> (r: Self)
        ensures
            r.inner == (MutexDescriptor { protocol: MutexProtocol::NoProtocol }),
    {
        MutexDefiner { inner: MutexDescriptor { protocol: MutexProtocol::NoProtocol } }
    }

    /// Specify the locking protocol. Defaults to no protocol.
    pub fn protocol(self, protocol: MutexProtocol) -> (r: Self)
        ensures
            r.inner == (MutexDescriptor { protocol }),
    {
        MutexDefiner { inner: MutexDescriptor { protocol } }
    }

    /// Complete the definition of the mutex.
    pub fn finish(self, cfg: &mut Cfg) -> (r: MutexRef)
        ensures
            r.id == old(cfg).raw.mutexes@.len(),
            final(cfg).raw.mutexes@ == old(cfg).raw.mutexes@.push(self.inner),
            final(cfg).raw.same_settings(old(cfg).raw),
            final(cfg).raw.same_objects_except(old(cfg).raw, false, false, true, false, false, false),
            final(cfg).same_except_raw(*old(cfg)),
    {
        let id = cfg.raw.mutex_define(self.inner);
        MutexRef { id }
    }
}

} // verus!
