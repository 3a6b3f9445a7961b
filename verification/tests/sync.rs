use r3::closure::{Closure, ClosureEnv};
use r3::kernel::cfg::Cfg;
use r3::kernel::error::{LockMutexError, MarkConsistentMutexError, TryLockMutexError};
use r3::kernel::raw::MutexProtocol;
use r3::kernel::raw_cfg::RawCfg;
use r3::sync::mutex::{
    debug_placeholder, GenericMutex, GenericMutexGuard, LockError, MarkConsistentError, TryLockError,
};
use r3::sync::recursive_mutex::{self as rm, GenericRecursiveMutex, MutexInner};
use r3::sync::source::DefaultSource;

fn closure(func: usize) -> Closure {
    Closure::from_raw_parts(func, ClosureEnv(0))
}

fn default_source() -> DefaultSource {
    DefaultSource { init: closure(100), size: 4, align: 4 }
}

#[test]
fn mutex_definition() {
    let mut cfg = Cfg::new(RawCfg::new());
    let m = GenericMutex::define(default_source())
        .protocol(MutexProtocol::Ceiling(3))
        .finish(&mut cfg, closure(200));
    assert_eq!(m.mutex.id, 0);
    assert_eq!(cfg.raw.mutexes[0].protocol, MutexProtocol::Ceiling(3));
    assert_eq!(m.cell.offset(), 0);
    assert_eq!(cfg.hunk_pool_len, 4);
    // The default value's binding and the binding that takes it.
    assert_eq!(cfg.bind_registry.binds.len(), 2);
    assert_eq!(cfg.bind_registry.binds[0].initializer, closure(100));
    assert_eq!(cfg.bind_registry.binds[1].initializer, closure(200));
    assert_eq!(m.get_ptr(0x2000), 0x2000);
}

#[test]
fn mutex_lock_outcomes() {
    let mut cfg = Cfg::new(RawCfg::new());
    let m = GenericMutex::define(default_source()).finish(&mut cfg, closure(200));
    assert!(m.lock(Ok(())).is_ok());
    assert_eq!(m.lock(Err(LockMutexError::WouldDeadlock)), Err(LockError::WouldDeadlock));
    assert!(matches!(m.lock(Err(LockMutexError::Abandoned)), Err(LockError::Abandoned(_))));
    assert_eq!(m.try_lock(Err(TryLockMutexError::Timeout)), Err(TryLockError::WouldBlock));
    assert_eq!(
        m.mark_consistent(Err(MarkConsistentMutexError::BadObjectState)),
        Err(MarkConsistentError::Consistent)
    );
    assert_eq!(m.mark_consistent(Ok(())), Ok(()));
}

#[test]
fn recursive_mutex_nesting() {
    let mut cfg = Cfg::new(RawCfg::new());
    let m = GenericRecursiveMutex::define(default_source()).finish(&mut cfg, closure(200));
    let mut level = MutexInner::new(0u32).level;
    let (first, mark) = m.lock(&mut level, Ok(()));
    assert!(first.is_ok());
    assert!(!mark);
    let (second, _) = m.lock(&mut level, Err(LockMutexError::WouldDeadlock));
    let guard = second.unwrap();
    assert_eq!(level, 2);
    assert!(!guard.release(&mut level));
    assert_eq!(level, 0);
    assert!(guard.release(&mut level));
}

#[test]
fn recursive_mutex_abandoned() {
    let mut cfg = Cfg::new(RawCfg::new());
    let m = GenericRecursiveMutex::define(default_source()).finish(&mut cfg, closure(200));
    let mut level = 4usize;
    let (r, mark) = m.lock(&mut level, Err(LockMutexError::Abandoned));
    assert!(matches!(r, Err(rm::LockError::Abandoned(_))));
    assert!(mark);
    assert_eq!(level, rm::LEVEL_ABANDONED);
    assert_eq!(m.mark_consistent(&mut level, Err(MarkConsistentMutexError::BadObjectState)), Ok(()));
    assert_eq!(level, 0);
    assert_eq!(
        m.mark_consistent(&mut level, Err(MarkConsistentMutexError::BadObjectState)),
        Err(rm::MarkConsistentError::Consistent)
    );
}

#[test]
fn mutex_debug_placeholders() {
    let mut cfg = Cfg::new(RawCfg::new());
    let m = GenericMutex::define(default_source()).finish(&mut cfg, closure(200));
    let ok: Result<GenericMutexGuard, TryLockError<GenericMutexGuard>> = m.try_lock(Ok(()));
    assert_eq!(debug_placeholder(&ok), None);
    assert_eq!(debug_placeholder(&m.try_lock(Err(TryLockMutexError::WouldDeadlock))), Some("<locked>"));
    assert_eq!(debug_placeholder(&m.try_lock(Err(TryLockMutexError::Timeout))), Some("<locked>"));
    assert_eq!(debug_placeholder(&m.try_lock(Err(TryLockMutexError::Abandoned))), Some("<abandoned>"));
    assert_eq!(
        debug_placeholder(&m.try_lock(Err(TryLockMutexError::BadParam))),
        Some("<current priority too high>")
    );
    assert_eq!(LockError::<GenericMutexGuard>::Interrupted.as_str(), "Interrupted");
    assert_eq!(m.try_lock(Err(TryLockMutexError::Abandoned)).unwrap_err().as_str(), "Abandoned");
}

#[test]
fn recursive_mutex_debug_placeholder() {
    let mut cfg = Cfg::new(RawCfg::new());
    let m = GenericRecursiveMutex::define(default_source()).finish(&mut cfg, closure(200));
    let mut level = 0usize;
    let (r, _) = m.try_lock(&mut level, Err(TryLockMutexError::BadContext));
    assert_eq!(rm::debug_placeholder(&r), Some("<bad context>"));
    assert_eq!(r.unwrap_err().as_str(), "BadContext");
}

#[test]
fn mutex_debug_strings() {
    let mut cfg = Cfg::new(RawCfg::new());
    let m = GenericMutex::define(default_source()).finish(&mut cfg, closure(200));
    assert_eq!(
        r3::sync::mutex::debug_string(&m.try_lock(Ok(())), "42"),
        "GenericMutex { data: 42 }"
    );
    assert_eq!(
        r3::sync::mutex::debug_string(&m.try_lock(Err(TryLockMutexError::Timeout)), "42"),
        "GenericMutex { data: <locked> }"
    );
    let r = GenericRecursiveMutex::define(default_source()).finish(&mut cfg, closure(200));
    let mut level = 0usize;
    let (res, _) = r.try_lock(&mut level, Err(TryLockMutexError::BadParam));
    assert_eq!(
        rm::debug_string(&res, "7"),
        "GenericRecursiveMutex { data: <current priority too high> }"
    );
}
