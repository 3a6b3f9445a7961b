//! A mutual exclusion primitive protecting shared data, built on a kernel
//! mutex.
use vstd::prelude::*;

use super::source::{bind_room, DefaultSource, HunkSource, NewBindSource, Source, TakeBindSource};
use crate::bind::{
    deps_ok, registry_initializers, registry_users, users_after_deps, Bind, BindBorrowType, BindDependency, BindUsage,
};
use crate::closure::Closure;
use crate::kernel::cfg::Cfg;
use crate::kernel::error::{LockMutexError, MarkConsistentMutexError, TryLockMutexError};
use crate::kernel::hunk::{round_up, Hunk};
use crate::kernel::mutex::{MutexDefiner, MutexRef};
use crate::kernel::raw::MutexProtocol;
use crate::kernel::raw_cfg::MutexDescriptor;

verus! {

/// The definer (static builder) for [`GenericMutex`].
pub struct Definer {
    pub mutex: MutexDefiner,
    pub source: Source,
}

/// A mutex that protects the data stored in `cell` with the kernel mutex
/// `mutex`.
#[derive(Debug, Clone, Copy, PartialEq, Eq, Structural)]
pub struct GenericMutex {
    pub cell: Hunk,
    pub mutex: MutexRef,
}

/// A mutex defined in a configuration.
pub type StaticMutex = GenericMutex;

/// Proof that the mutex is locked by the current task; the lock is held
/// until the guard is released.
#[derive(Debug, Clone, Copy, PartialEq, Eq, Structural)]
pub struct GenericMutexGuard {
    pub mutex: GenericMutex,
}

/// Error type of [`GenericMutex::lock`].
#[derive(Debug, Clone, Copy, PartialEq, Eq, Structural)]
pub enum LockError<Guard> {
    /// CPU Lock is active, or the current context is not a task context.
    BadContext,
    /// The wait operation was interrupted.
    Interrupted,
    /// The current task already owns the mutex.
    WouldDeadlock,
    /// The mutex's priority ceiling is lower than the current task's base
    /// priority.
    BadParam,
    /// The previous owner exited while holding the lock; the lock has been
    /// acquired but the data may be inconsistent.
    Abandoned(Guard),
}

/// Error type of [`GenericMutex::try_lock`].
#[derive(Debug, Clone, Copy, PartialEq, Eq, Structural)]
pub enum TryLockError<Guard> {
    BadContext,
    WouldDeadlock,
    /// The mutex is currently locked by another task.
    WouldBlock,
    BadParam,
    Abandoned(Guard),
}

/// Error type of [`GenericMutex::mark_consistent`].
#[derive(Debug, Clone, Copy, PartialEq, Eq, Structural)]
pub enum MarkConsistentError {
    BadContext,
    /// The mutex does not protect an inconsistent state.
    Consistent,
}

impl GenericMutex {
    /// Construct a `Definer` to define a mutex in a configuration function.
    /// The data starts with its default value, produced by `default`.
    pub fn define(default: DefaultSource) -> (r: Definer)
        ensures
            r.mutex.inner == (MutexDescriptor { protocol: MutexProtocol::NoProtocol }),
            r.source == Source::Default(default),
    {
        Definer { mutex: MutexRef::define(), source: Source::Default(default) }
    }

    /// Acquire the mutex, given the outcome of locking the kernel mutex.
    /// Access to the kernel mutex is always granted to its owner.
    pub fn lock(&self, lock_result: Result<(), LockMutexError>) -> (r: Result<GenericMutexGuard, LockError<GenericMutexGuard>>)
        requires
            lock_result != Err::<(), LockMutexError>(LockMutexError::NoAccess),
        ensures
            r == match lock_result {
                Ok(()) => Ok(GenericMutexGuard { mutex: *self }),
                Err(LockMutexError::BadContext) => Err(LockError::BadContext),
                Err(LockMutexError::Interrupted) => Err(LockError::Interrupted),
                Err(LockMutexError::WouldDeadlock) => Err(LockError::WouldDeadlock),
                Err(LockMutexError::BadParam) => Err(LockError::BadParam),
                Err(LockMutexError::Abandoned) => Err(LockError::Abandoned(GenericMutexGuard { mutex: *self })),
                Err(LockMutexError::NoAccess) => Err(LockError::BadContext),
            },
    {
        match lock_result {
            Ok(()) => Ok(GenericMutexGuard { mutex: *self }),
            Err(LockMutexError::BadContext) => Err(LockError::BadContext),
            Err(LockMutexError::Interrupted) => Err(LockError::Interrupted),
            Err(LockMutexError::WouldDeadlock) => Err(LockError::WouldDeadlock),
            Err(LockMutexError::BadParam) => Err(LockError::BadParam),
            Err(LockMutexError::Abandoned) => Err(LockError::Abandoned(GenericMutexGuard { mutex: *self })),
            Err(LockMutexError::NoAccess) => Err(LockError::BadContext),
        }
    }

    /// Attempt to acquire the mutex without blocking, given the outcome of
    /// trying to lock the kernel mutex.
    pub fn try_lock(&self, lock_result: Result<(), TryLockMutexError>) -> (r: Result<GenericMutexGuard, TryLockError<GenericMutexGuard>>)
        requires
            lock_result != Err::<(), TryLockMutexError>(TryLockMutexError::NoAccess),
        ensures
            r == match lock_result {
                Ok(()) => Ok(GenericMutexGuard { mutex: *self }),
                Err(TryLockMutexError::BadContext) => Err(TryLockError::BadContext),
                Err(TryLockMutexError::WouldDeadlock) => Err(TryLockError::WouldDeadlock),
                Err(TryLockMutexError::Timeout) => Err(TryLockError::WouldBlock),
                Err(TryLockMutexError::BadParam) => Err(TryLockError::BadParam),
                Err(TryLockMutexError::Abandoned) => Err(TryLockError::Abandoned(GenericMutexGuard { mutex: *self })),
                Err(TryLockMutexError::NoAccess) => Err(TryLockError::BadContext),
            },
    {
        match lock_result {
            Ok(()) => Ok(GenericMutexGuard { mutex: *self }),
            Err(TryLockMutexError::BadContext) => Err(TryLockError::BadContext),
            Err(TryLockMutexError::WouldDeadlock) => Err(TryLockError::WouldDeadlock),
            Err(TryLockMutexError::Timeout) => Err(TryLockError::WouldBlock),
            Err(TryLockMutexError::BadParam) => Err(TryLockError::BadParam),
            Err(TryLockMutexError::Abandoned) => Err(TryLockError::Abandoned(GenericMutexGuard { mutex: *self })),
            Err(TryLockMutexError::NoAccess) => Err(TryLockError::BadContext),
        }
    }

    /// Mark the protected state as consistent, given the outcome of marking
    /// the kernel mutex consistent.
    pub fn mark_consistent(&self, result: Result<(), MarkConsistentMutexError>) -> (r: Result<(), MarkConsistentError>)
        requires
            result != Err::<(), MarkConsistentMutexError>(MarkConsistentMutexError::NoAccess),
        ensures
            r == match result {
                Ok(()) => Ok(()),
                Err(MarkConsistentMutexError::BadContext) => Err(MarkConsistentError::BadContext),
                Err(MarkConsistentMutexError::BadObjectState) => Err(MarkConsistentError::Consistent),
                Err(MarkConsistentMutexError::NoAccess) => Err(MarkConsistentError::BadContext),
            },
    {
        match result {
            Ok(()) => Ok(()),
            Err(MarkConsistentMutexError::BadContext) => Err(MarkConsistentError::BadContext),
            Err(MarkConsistentMutexError::BadObjectState) => Err(MarkConsistentError::Consistent),
            Err(MarkConsistentMutexError::NoAccess) => Err(MarkConsistentError::BadContext),
        }
    }

    /// The address of the protected data, given the address of the memory
    /// pool.
    pub fn get_ptr(&self, hunk_pool_ptr: usize) -> (r: usize)
        ensures
            r == if hunk_pool_ptr + self.cell.offset_spec() > usize::MAX {
                hunk_pool_ptr + self.cell.offset_spec() - (usize::MAX + 1)
            } else {
                hunk_pool_ptr + self.cell.offset_spec()
            },
    {
        self.cell.as_ptr(hunk_pool_ptr)
    }
}

/// The configuration has room for what `source` registers, so that the
/// storage of the data can be obtained from it.
pub open spec fn source_ready(source: Source, cfg: Cfg) -> bool {
    match source {
        Source::Default(d) => bind_room(cfg, 1) && d.align > 0 && cfg.hunk_pool_len + d.align - 1 <= usize::MAX
            && round_up(cfg.hunk_pool_len as int, d.align as int) + d.size < usize::MAX,
        Source::NewBind(n) => bind_room(cfg, 1) && deps_ok(
            n.binder@,
            BindUsage::Bind(cfg.bind_registry.binds@.len() as usize),
            cfg.bind_registry.binds@.len() as int,
        ) && n.align > 0 && cfg.hunk_pool_len + n.align - 1 <= usize::MAX && round_up(
            cfg.hunk_pool_len as int,
            n.align as int,
        ) + n.size < usize::MAX,
        Source::TakeBind(t) => t.0.index_spec() < cfg.bind_registry.binds@.len() && bind_room(cfg, 0)
            && cfg.hunk_pool_len < usize::MAX,
        Source::Hunk(_) => true,
    }
}

/// The storage `cell` of the data was obtained from `source`: a new binding
/// allocated at the end of the hunk pool for a default value or a new
/// binding, the taken binding's hunk, or the given hunk; each binding source
/// also registers the binding that takes the data, initialized by `noop`.
pub open spec fn source_taken(source: Source, old_cfg: Cfg, new_cfg: Cfg, cell: Hunk, noop: Closure) -> bool {
    let users = registry_users(old_cfg.bind_registry);
    let n = old_cfg.bind_registry.binds@.len();
    match source {
        Source::Default(d) => cell.offset_spec() == round_up(old_cfg.hunk_pool_len as int, d.align as int)
            && registry_initializers(new_cfg.bind_registry) == registry_initializers(
            old_cfg.bind_registry,
        ).push(d.init).push(noop) && registry_users(new_cfg.bind_registry) == users.push(
            seq![(BindUsage::Bind((n + 1) as usize), BindBorrowType::TakeMut)],
        ).push(Seq::empty()),
        Source::NewBind(nb) => cell.offset_spec() == round_up(old_cfg.hunk_pool_len as int, nb.align as int)
            && registry_initializers(new_cfg.bind_registry) == registry_initializers(
            old_cfg.bind_registry,
        ).push(nb.func).push(noop) && registry_users(new_cfg.bind_registry) == users_after_deps(
            users,
            nb.binder@,
            BindUsage::Bind(n as usize),
        ).push(seq![(BindUsage::Bind((n + 1) as usize), BindBorrowType::TakeMut)]).push(Seq::empty()),
        Source::TakeBind(t) => cell == t.0.hunk_spec() && registry_initializers(new_cfg.bind_registry)
            == registry_initializers(old_cfg.bind_registry).push(noop) && registry_users(new_cfg.bind_registry)
            == users.update(
            t.0.index_spec() as int,
            users[t.0.index_spec() as int].push((BindUsage::Bind(n as usize), BindBorrowType::TakeMut)),
        ).push(Seq::empty()),
        Source::Hunk(h) => cell == h.0 && new_cfg.bind_registry == old_cfg.bind_registry
            && new_cfg.hunk_pool_len == old_cfg.hunk_pool_len,
    }
}

impl Definer {
    /// Specify the locking protocol of the kernel mutex.
    pub fn protocol(self, protocol: MutexProtocol) -> (r: Self)
        ensures
            r.mutex.inner == (MutexDescriptor { protocol }),
            r.source == self.source,
    {
        Definer { mutex: self.mutex.protocol(protocol), source: self.source }
    }

    /// Use a new binding, initialized by `func` from the bindings that
    /// `binder` declares, as the data.
    pub fn init_with_bind(self, binder: Vec<BindDependency>, func: Closure, size: usize, align: usize) -> (r: Self)
        ensures
            r.mutex == self.mutex,
            r.source == Source::NewBind(NewBindSource { binder, func, size, align }),
    {
        Definer { mutex: self.mutex, source: Source::NewBind(NewBindSource { binder, func, size, align }) }
    }

    /// Take an existing binding as the data.
    pub fn take_bind(self, b: Bind) -> (r: Self)
        ensures
            r.mutex == self.mutex,
            r.source == Source::TakeBind(TakeBindSource(b)),
    {
        Definer { mutex: self.mutex, source: Source::TakeBind(TakeBindSource(b)) }
    }

    /// Use an existing hunk, which the caller initializes, as the data.
    pub fn wrap_hunk_unchecked(self, hunk: Hunk) -> (r: Self)
        ensures
            r.mutex == self.mutex,
            r.source == Source::Hunk(HunkSource(hunk)),
    {
        Definer { mutex: self.mutex, source: Source::Hunk(HunkSource(hunk)) }
    }

    /// Complete the definition: obtain the storage of the data from the
    /// source (registering bindings as the source requires; `noop` is the
    /// initializer of the binding that takes the data's binding) and define
    /// the kernel mutex.
    pub fn finish(self, cfg: &mut Cfg, noop: Closure) -> (r: GenericMutex)
        requires
            source_ready(self.source, *old(cfg)),
        ensures
            r.mutex.id == old(cfg).raw.mutexes@.len(),
            final(cfg).raw.mutexes@ == old(cfg).raw.mutexes@.push(self.mutex.inner),
            final(cfg).raw.same_settings(old(cfg).raw),
            final(cfg).raw.same_objects_except(old(cfg).raw, false, false, true, false, false, false),
            source_taken(self.source, *old(cfg), *final(cfg), r.cell, noop),
            final(cfg).bind_registry.wf() || old(cfg).bind_registry == final(cfg).bind_registry,
            final(cfg).same_except(*old(cfg), true, false, true, false, false, true),
    {
        let cell = match self.source {
            Source::Default(d) => d.into_unsafe_cell_hunk(cfg, noop),
            Source::NewBind(n) => n.into_unsafe_cell_hunk(cfg, noop),
            Source::TakeBind(t) => t.into_unsafe_cell_hunk(cfg, noop),
            Source::Hunk(h) => h.into_unsafe_cell_hunk(),
        };
        let mutex = self.mutex.finish(cfg);
        GenericMutex { cell, mutex }
    }
}

impl<Guard> LockError<Guard> {
    /// The name of the error's variant.
    pub open spec fn name_spec(&self) -> Seq<char> {
        match self {
            LockError::BadContext => "BadContext"@,
            LockError::Interrupted => "Interrupted"@,
            LockError::WouldDeadlock => "WouldDeadlock"@,
            LockError::BadParam => "BadParam"@,
            LockError::Abandoned(_) => "Abandoned"@,
        }
    }

    /// The name of the error's variant (what its `Debug` output shows).
    pub fn as_str(&self) -> (r: &'static str)
        ensures
            r@ == self.name_spec(),
    {
        match self {
            LockError::BadContext => "BadContext",
            LockError::Interrupted => "Interrupted",
            LockError::WouldDeadlock => "WouldDeadlock",
            LockError::BadParam => "BadParam",
            LockError::Abandoned(_) => "Abandoned",
        }
    }
}

impl<Guard> TryLockError<Guard> {
    /// The name of the error's variant.
    pub open spec fn name_spec(&self) -> Seq<char> {
        match self {
            TryLockError::BadContext => "BadContext"@,
            TryLockError::WouldBlock => "WouldBlock"@,
            TryLockError::WouldDeadlock => "WouldDeadlock"@,
            TryLockError::BadParam => "BadParam"@,
            TryLockError::Abandoned(_) => "Abandoned"@,
        }
    }

    /// The name of the error's variant (what its `Debug` output shows).
    pub fn as_str(&self) -> (r: &'static str)
        ensures
            r@ == self.name_spec(),
    {
        match self {
            TryLockError::BadContext => "BadContext",
            TryLockError::WouldBlock => "WouldBlock",
            TryLockError::WouldDeadlock => "WouldDeadlock",
            TryLockError::BadParam => "BadParam",
            TryLockError::Abandoned(_) => "Abandoned",
        }
    }
}

/// What the debug output of a mutex shows in place of the data, given the
/// outcome of trying to lock it: nothing (the data itself is shown) if the
/// lock was acquired.
pub open spec fn debug_placeholder_spec(try_lock_result: Result<GenericMutexGuard, TryLockError<GenericMutexGuard>>) -> Option<Seq<char>> {
    match try_lock_result {
        Ok(_) => None,
        Err(TryLockError::BadContext) => Some("<bad context>"@),
        Err(TryLockError::WouldBlock) | Err(TryLockError::WouldDeadlock) => Some("<locked>"@),
        Err(TryLockError::Abandoned(_)) => Some("<abandoned>"@),
        Err(TryLockError::BadParam) => Some("<current priority too high>"@),
    }
}

/// What the debug output of a mutex shows in place of the data, given the
/// outcome of trying to lock it: `None` if the lock was acquired and the data
/// itself is shown.
pub fn debug_placeholder(try_lock_result: &Result<GenericMutexGuard, TryLockError<GenericMutexGuard>>) -> (r: Option<&'static str>)
    ensures
        match r {
            Some(s) => debug_placeholder_spec(*try_lock_result) == Some(s@),
            None => debug_placeholder_spec(*try_lock_result) is None,
        },
{
    match try_lock_result {
        Ok(_) => None,
        Err(TryLockError::BadContext) => Some("<bad context>"),
        Err(TryLockError::WouldBlock) | Err(TryLockError::WouldDeadlock) => Some("<locked>"),
        Err(TryLockError::Abandoned(_)) => Some("<abandoned>"),
        Err(TryLockError::BadParam) => Some("<current priority too high>"),
    }
}

/// The debug output of a mutex, given the outcome of trying to lock it and
/// the debug output of its data: the data is shown where the lock was
/// acquired, a placeholder otherwise.
pub fn debug_string(
    try_lock_result: &Result<GenericMutexGuard, TryLockError<GenericMutexGuard>>,
    data_debug: &str,
) -> (r: String)
    ensures
        r@ == "GenericMutex { data: "@ + match debug_placeholder_spec(*try_lock_result) {
            Some(p) => p,
            None => data_debug@,
        } + " }"@,
{
    let mut out = String::from_str("GenericMutex { data: ");
    match debug_placeholder(try_lock_result) {
        Some(p) => out.append(p),
        None => out.append(data_debug),
    }
    out.append(" }");
    out
}

} // verus!
