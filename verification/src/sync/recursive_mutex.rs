//! A recursive mutex: a mutex that the owning task can lock again, built on
//! a kernel mutex and a nesting level stored beside the data.
use vstd::prelude::*;

use super::mutex::{source_ready, source_taken, Definer as MutexDefinerOf};
use super::source::{DefaultSource, HunkSource, NewBindSource, Source, TakeBindSource};
use crate::bind::{Bind, BindDependency};
use crate::closure::Closure;
use crate::kernel::cfg::Cfg;
use crate::kernel::error::{LockMutexError, MarkConsistentMutexError, TryLockMutexError};
use crate::kernel::hunk::Hunk;
use crate::kernel::mutex::{MutexDefiner, MutexRef};
use crate::kernel::raw::MutexProtocol;
use crate::kernel::raw_cfg::MutexDescriptor;

verus! {

/// The flag of the nesting level that marks the protected state as
/// inconsistent (the previous owner exited while holding the lock).
pub const LEVEL_ABANDONED: usize = 1;

/// The nesting count is stored in the level shifted left by this many bits.
pub const LEVEL_COUNT_SHIFT: u32 = 1;

/// The definer (static builder) for [`GenericRecursiveMutex`].
pub struct Definer {
    pub mutex: MutexDefiner,
    pub source: Source,
}

/// A recursive mutex that protects the data stored in `cell` with the kernel
/// mutex `mutex`.
#[derive(Debug, Clone, Copy, PartialEq, Eq, Structural)]
pub struct GenericRecursiveMutex {
    pub cell: Hunk,
    pub mutex: MutexRef,
}

/// A recursive mutex defined in a configuration.
pub type StaticRecursiveMutex = GenericRecursiveMutex;

/// The data protected by a recursive mutex, with the nesting level: twice
/// the number of nested locks beyond the first, plus [`LEVEL_ABANDONED`] if
/// the state is inconsistent.
pub struct MutexInner<T> {
    pub level: usize,
    pub data: T,
}

impl<T> MutexInner<T> {
    /// Wrap `data` with a zero nesting level.
    pub fn new(data: T) -> (r: Self)
        ensures
            r.level == 0,
            r.data == data,
    {
        MutexInner { level: 0, data }
    }
}

/// Proof that the recursive mutex is locked by the current task.
#[derive(Debug, Clone, Copy, PartialEq, Eq, Structural)]
pub struct GenericMutexGuard {
    pub mutex: GenericRecursiveMutex,
}

/// Error type of [`GenericRecursiveMutex::lock`].
#[derive(Debug, Clone, Copy, PartialEq, Eq, Structural)]
pub enum LockError<Guard> {
    BadContext,
    Interrupted,
    BadParam,
    Abandoned(Guard),
}

/// Error type of [`GenericRecursiveMutex::try_lock`].
#[derive(Debug, Clone, Copy, PartialEq, Eq, Structural)]
pub enum TryLockError<Guard> {
    BadContext,
    WouldBlock,
    BadParam,
    Abandoned(Guard),
}

/// Error type of [`GenericRecursiveMutex::mark_consistent`].
#[derive(Debug, Clone, Copy, PartialEq, Eq, Structural)]
pub enum MarkConsistentError {
    BadContext,
    Consistent,
}

/// The level after the kernel reports that locking took `kind` effect:
/// `0` acquired, `1` already owned (nested), `2` abandoned.
pub open spec fn level_after_lock(level: usize, kind: int) -> usize {
    if kind == 1 {
        (level + 2) as usize
    } else if kind == 2 {
        LEVEL_ABANDONED
    } else {
        level
    }
}

/// The level after releasing one lock, and whether the kernel mutex is
/// unlocked: it is when no nested lock remains.
pub open spec fn release_spec(level: usize) -> (usize, bool) {
    if level == 0 || level == LEVEL_ABANDONED {
        (level, true)
    } else {
        ((level - 2) as usize, false)
    }
}

impl GenericRecursiveMutex {
    /// Construct a `Definer` to define a recursive mutex in a configuration
    /// function. The data starts with its default value, produced by
    /// `default`.
    pub fn define(default: DefaultSource) -> (r: Definer)
        ensures
            r.mutex.inner == (MutexDescriptor { protocol: MutexProtocol::NoProtocol }),
            r.source == Source::Default(default),
    {
        Definer { mutex: MutexRef::define(), source: Source::Default(default) }
    }

    /// Acquire the mutex, given the outcome of locking the kernel mutex and
    /// the current nesting level. A lock by the owning task nests; an
    /// abandoned lock is taken over and marks the state inconsistent, in
    /// which case the second component is `true`: the kernel mutex must then
    /// be marked consistent, which always succeeds for the owner.
    pub fn lock(&self, level: &mut usize, lock_result: Result<(), LockMutexError>) -> (r: (
        Result<GenericMutexGuard, LockError<GenericMutexGuard>>,
        bool,
    ))
        requires
            lock_result != Err::<(), LockMutexError>(LockMutexError::NoAccess),
            lock_result == Err::<(), LockMutexError>(LockMutexError::WouldDeadlock) ==> *old(level) + 2 <= usize::MAX,
        ensures
            *final(level) == match lock_result {
                Ok(()) => level_after_lock(*old(level), 0),
                Err(LockMutexError::WouldDeadlock) => level_after_lock(*old(level), 1),
                Err(LockMutexError::Abandoned) => level_after_lock(*old(level), 2),
                _ => *old(level),
            },
            r.1 == (lock_result == Err::<(), LockMutexError>(LockMutexError::Abandoned)),
            r.0 == match lock_result {
                Err(LockMutexError::BadContext) => Err(LockError::BadContext),
                Err(LockMutexError::Interrupted) => Err(LockError::Interrupted),
                Err(LockMutexError::BadParam) => Err(LockError::BadParam),
                _ => if *final(level) % 2 == 1 {
                    Err(LockError::Abandoned(GenericMutexGuard { mutex: *self }))
                } else {
                    Ok(GenericMutexGuard { mutex: *self })
                },
            },
    {
        let mut mark = false;
        match lock_result {
            Ok(()) => {},
            Err(LockMutexError::WouldDeadlock) => {
                *level = *level + 2;
            },
            Err(LockMutexError::BadContext) => return (Err(LockError::BadContext), false),
            Err(LockMutexError::Interrupted) => return (Err(LockError::Interrupted), false),
            Err(LockMutexError::BadParam) => return (Err(LockError::BadParam), false),
            Err(LockMutexError::Abandoned) => {
                *level = LEVEL_ABANDONED;
                mark = true;
            },
            Err(LockMutexError::NoAccess) => return (Err(LockError::BadContext), false),
        }
        if *level % 2 == 1 {
            (Err(LockError::Abandoned(GenericMutexGuard { mutex: *self })), mark)
        } else {
            (Ok(GenericMutexGuard { mutex: *self }), mark)
        }
    }

    /// Attempt to acquire the mutex without blocking, given the outcome of
    /// trying to lock the kernel mutex and the current nesting level. See
    /// [`Self::lock`].
    pub fn try_lock(&self, level: &mut usize, lock_result: Result<(), TryLockMutexError>) -> (r: (
        Result<GenericMutexGuard, TryLockError<GenericMutexGuard>>,
        bool,
    ))
        requires
            lock_result != Err::<(), TryLockMutexError>(TryLockMutexError::NoAccess),
            lock_result == Err::<(), TryLockMutexError>(TryLockMutexError::WouldDeadlock) ==> *old(level) + 2
                <= usize::MAX,
        ensures
            *final(level) == match lock_result {
                Ok(()) => level_after_lock(*old(level), 0),
                Err(TryLockMutexError::WouldDeadlock) => level_after_lock(*old(level), 1),
                Err(TryLockMutexError::Abandoned) => level_after_lock(*old(level), 2),
                _ => *old(level),
            },
            r.1 == (lock_result == Err::<(), TryLockMutexError>(TryLockMutexError::Abandoned)),
            r.0 == match lock_result {
                Err(TryLockMutexError::BadContext) => Err(TryLockError::BadContext),
                Err(TryLockMutexError::Timeout) => Err(TryLockError::WouldBlock),
                Err(TryLockMutexError::BadParam) => Err(TryLockError::BadParam),
                _ => if *final(level) % 2 == 1 {
                    Err(TryLockError::Abandoned(GenericMutexGuard { mutex: *self }))
                } else {
                    Ok(GenericMutexGuard { mutex: *self })
                },
            },
    {
        let mut mark = false;
        match lock_result {
            Ok(()) => {},
            Err(TryLockMutexError::WouldDeadlock) => {
                *level = *level + 2;
            },
            Err(TryLockMutexError::BadContext) => return (Err(TryLockError::BadContext), false),
            Err(TryLockMutexError::Timeout) => return (Err(TryLockError::WouldBlock), false),
            Err(TryLockMutexError::BadParam) => return (Err(TryLockError::BadParam), false),
            Err(TryLockMutexError::Abandoned) => {
                *level = LEVEL_ABANDONED;
                mark = true;
            },
            Err(TryLockMutexError::NoAccess) => return (Err(TryLockError::BadContext), false),
        }
        if *level % 2 == 1 {
            (Err(TryLockError::Abandoned(GenericMutexGuard { mutex: *self })), mark)
        } else {
            (Ok(GenericMutexGuard { mutex: *self }), mark)
        }
    }

    /// Mark the protected state as consistent, given the outcome of marking
    /// the kernel mutex consistent and the current nesting level.
    pub fn mark_consistent(&self, level: &mut usize, result: Result<(), MarkConsistentMutexError>) -> (r: Result<(), MarkConsistentError>)
        requires
            result != Err::<(), MarkConsistentMutexError>(MarkConsistentMutexError::NoAccess),
        ensures
            match result {
                Ok(()) => *final(level) == 0 && r is Ok,
                Err(MarkConsistentMutexError::BadContext) => *final(level) == *old(level) && r
                    == Err::<(), MarkConsistentError>(MarkConsistentError::BadContext),
                _ => if *old(level) % 2 == 1 {
                    *final(level) == *old(level) - 1 && r is Ok
                } else {
                    *final(level) == *old(level) && r == Err::<(), MarkConsistentError>(
                        MarkConsistentError::Consistent,
                    )
                },
            },
    {
        match result {
            Ok(()) => {
                *level = 0;
                Ok(())
            },
            Err(MarkConsistentMutexError::BadContext) => Err(MarkConsistentError::BadContext),
            _ => {
                if *level % 2 == 1 {
                    *level = *level - 1;
                    Ok(())
                } else {
                    Err(MarkConsistentError::Consistent)
                }
            },
        }
    }

    /// The address of the protected data, given the address of the memory
    /// pool.
    pub fn get_ptr(&self, hunk_pool_ptr: usize) -> (r: usize)
        ensures
            r == if hunk_pool_ptr + self.cell.offset_spec() > usize::MAX {
                hunk_pool_ptr + self.cell.offset_spec() - (usize::MAX + 1)
            } else {
                hunk_pool_ptr + self.cell.offset_spec()
            },
    {
        self.cell.as_ptr(hunk_pool_ptr)
    }
}

impl GenericMutexGuard {
    /// Release one lock: decrement the nesting level, or, when no nested lock
    /// remains, unlock the kernel mutex (returns `true`).
    pub fn release(&self, level: &mut usize) -> (unlock: bool)
        ensures
            (*final(level), unlock) == release_spec(*old(level)),
    {
        if *level == 0 || *level == LEVEL_ABANDONED {
            true
        } else {
            *level = *level - 2;
            false
        }
    }
}

impl Definer {
    /// Specify the locking protocol of the kernel mutex.
    pub fn protocol(self, protocol: MutexProtocol) -> (r: Self)
        ensures
            r.mutex.inner == (MutexDescriptor { protocol }),
            r.source == self.source,
    {
        Definer { mutex: self.mutex.protocol(protocol), source: self.source }    }

    /// Use a new binding, initialized by `func` from the bindings that
    /// `binder` declares, as the data.
    pub fn init_with_bind(self, binder: Vec<BindDependency>, func: Closure, size: usize, align: usize) -> (r: Self)
        ensures
            r.mutex == self.mutex,
            r.source == Source::NewBind(NewBindSource { binder, func, size, align }),
    {
        Definer { mutex: self.mutex, source: Source::NewBind(NewBindSource { binder, func, size, align }) }
    }

    /// Take an existing binding as the data.
    pub fn take_bind(self, b: Bind) -> (r: Self)
        ensures
            r.mutex == self.mutex,
            r.source == Source::TakeBind(TakeBindSource(b)),
    {
        Definer { mutex: self.mutex, source: Source::TakeBind(TakeBindSource(b)) }
    }

    /// Use an existing hunk, which the caller initializes, as the data.
    pub fn wrap_hunk_unchecked(self, hunk: Hunk) -> (r: Self)
        ensures
            r.mutex == self.mutex,
            r.source == Source::Hunk(HunkSource(hunk)),
    {
        Definer { mutex: self.mutex, source: Source::Hunk(HunkSource(hunk)) }
    }

    /// Complete the definition: obtain the storage of the data (with its
    /// nesting level) from the source, registering bindings as the source
    /// requires (`noop` is the initializer of the binding that takes the
    /// data's binding), and define the kernel mutex.
    pub fn finish(self, cfg: &mut Cfg, noop: Closure) -> (r: GenericRecursiveMutex)
        requires
            source_ready(self.source, *old(cfg)),
        ensures
            r.mutex.id == old(cfg).raw.mutexes@.len(),
            final(cfg).raw.mutexes@ == old(cfg).raw.mutexes@.push(self.mutex.inner),
            final(cfg).raw.same_settings(old(cfg).raw),
            final(cfg).raw.same_objects_except(old(cfg).raw, false, false, true, false, false, false),
            source_taken(self.source, *old(cfg), *final(cfg), r.cell, noop),
            final(cfg).bind_registry.wf() || old(cfg).bind_registry == final(cfg).bind_registry,
            final(cfg).same_except(*old(cfg), true, false, true, false, false, true),
    {
        let m = MutexDefinerOf { mutex: self.mutex, source: self.source }.finish(cfg, noop);
        GenericRecursiveMutex { cell: m.cell, mutex: m.mutex }
    }
}

/// A nested lock followed by its release restores the nesting level and
/// keeps the kernel mutex locked.
pub proof fn lemma_nested_lock_release(level: usize)
    requires
        level + 2 <= usize::MAX,
    ensures
        release_spec(level_after_lock(level, 1)) == (level, false),
{
}

/// Releasing a lock never clears the mark of an abandoned (inconsistent)
/// state, and releasing the outermost lock leaves the nesting level as it
/// is: only `mark_consistent` makes the state consistent again, so a lock
/// taken after the release still reports the state as abandoned.
pub proof fn lemma_release_keeps_abandonment(level: usize)
    ensures
        release_spec(level).0 % 2 == level % 2,
        release_spec(level).1 ==> release_spec(level).0 == level,
        !release_spec(level).1 ==> release_spec(level).0 + 2 == level,
        level % 2 == 1 ==> level_after_lock(release_spec(level).0, 0) % 2 == 1,
{
}

/// After `n` nested locks on top of a fresh lock of a consistent mutex,
/// `n` releases keep the kernel mutex locked and the next one unlocks it.
pub proof fn lemma_release_unlocks_after_nesting(n: nat)
    requires
        2 * n <= usize::MAX,
    ensures
        release_spec(0).1,
        n > 0 ==> release_spec((2 * n) as usize) == ((2 * (n - 1)) as usize, false),
{
}

impl<Guard> LockError<Guard> {
    /// The name of the error's variant.
    pub open spec fn name_spec(&self) -> Seq<char> {
        match self {
            LockError::BadContext => "BadContext"@,
            LockError::Interrupted => "Interrupted"@,
            LockError::BadParam => "BadParam"@,
            LockError::Abandoned(_) => "Abandoned"@,
        }
    }

    /// The name of the error's variant (what its `Debug` output shows).
    pub fn as_str(&self) -> (r: &'static str)
        ensures
            r@ == self.name_spec(),
    {
        match self {
            LockError::BadContext => "BadContext",
            LockError::Interrupted => "Interrupted",
            LockError::BadParam => "BadParam",
            LockError::Abandoned(_) => "Abandoned",
        }
    }
}

impl<Guard> TryLockError<Guard> {
    /// The name of the error's variant.
    pub open spec fn name_spec(&self) -> Seq<char> {
        match self {
            TryLockError::BadContext => "BadContext"@,
            TryLockError::WouldBlock => "WouldBlock"@,
            TryLockError::BadParam => "BadParam"@,
            TryLockError::Abandoned(_) => "Abandoned"@,
        }
    }

    /// The name of the error's variant (what its `Debug` output shows).
    pub fn as_str(&self) -> (r: &'static str)
        ensures
            r@ == self.name_spec(),
    {
        match self {
            TryLockError::BadContext => "BadContext",
            TryLockError::WouldBlock => "WouldBlock",
            TryLockError::BadParam => "BadParam",
            TryLockError::Abandoned(_) => "Abandoned",
        }
    }
}

/// What the debug output of a mutex shows in place of the data, given the
/// outcome of trying to lock it: nothing (the data itself is shown) if the
/// lock was acquired.
pub open spec fn debug_placeholder_spec(try_lock_result: Result<GenericMutexGuard, TryLockError<GenericMutexGuard>>) -> Option<Seq<char>> {
    match try_lock_result {
        Ok(_) => None,
        Err(TryLockError::BadContext) => Some("<bad context>"@),
        Err(TryLockError::WouldBlock) => Some("<locked>"@),
        Err(TryLockError::Abandoned(_)) => Some("<abandoned>"@),
        Err(TryLockError::BadParam) => Some("<current priority too high>"@),
    }
}

/// What the debug output of a mutex shows in place of the data, given the
/// outcome of trying to lock it: `None` if the lock was acquired and the data
/// itself is shown.
pub fn debug_placeholder(try_lock_result: &Result<GenericMutexGuard, TryLockError<GenericMutexGuard>>) -> (r: Option<&'static str>)
    ensures
        match r {
            Some(s) => debug_placeholder_spec(*try_lock_result) == Some(s@),
            None => debug_placeholder_spec(*try_lock_result) is None,
        },
{
    match try_lock_result {
        Ok(_) => None,
        Err(TryLockError::BadContext) => Some("<bad context>"),
        Err(TryLockError::WouldBlock) => Some("<locked>"),
        Err(TryLockError::Abandoned(_)) => Some("<abandoned>"),
        Err(TryLockError::BadParam) => Some("<current priority too high>"),
    }
}

/// The debug output of a mutex, given the outcome of trying to lock it and
/// the debug output of its data: the data is shown where the lock was
/// acquired, a placeholder otherwise.
pub fn debug_string(
    try_lock_result: &Result<GenericMutexGuard, TryLockError<GenericMutexGuard>>,
    data_debug: &str,
) -> (r: String)
    ensures
        r@ == "GenericRecursiveMutex { data: "@ + match debug_placeholder_spec(*try_lock_result) {
            Some(p) => p,
            None => data_debug@,
        } + " }"@,
{
    let mut out = String::from_str("GenericRecursiveMutex { data: ");
    match debug_placeholder(try_lock_result) {
        Some(p) => out.append(p),
        None => out.append(data_debug),
    }
    out.append(" }");
    out
}

} // verus!
