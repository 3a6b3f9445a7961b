use r3::bind::sorter::{sort_bindings, topological_sort, SorterError, Vertex};
use r3::bind::{
    bind, bind_default, bind_uninit, BindBorrowType, BindUsage, Binder, CfgBindRegistry,
    INIT_HOOK_PRIORITY,
};
use r3::closure::{Closure, ClosureEnv};
use r3::kernel::cfg::Cfg;
use r3::kernel::raw_cfg::RawCfg;

fn users(list: &[&[(BindUsage, BindBorrowType)]]) -> Vec<Vec<(BindUsage, BindBorrowType)>> {
    list.iter().map(|u| u.to_vec()).collect()
}

#[test]
fn sort_no_bindings() {
    assert_eq!(sort_bindings(&Vec::new()), Ok(Vec::new()));
}

#[test]
fn sort_consumer_after_producer() {
    // Binding 1's initializer borrows binding 0.
    let u = users(&[&[(BindUsage::Bind(1), BindBorrowType::Borrow)], &[]]);
    assert_eq!(sort_bindings(&u), Ok(vec![0, 1]));
    // Binding 0's initializer borrows binding 1.
    let u = users(&[&[], &[(BindUsage::Bind(0), BindBorrowType::BorrowMut)]]);
    assert_eq!(sort_bindings(&u), Ok(vec![1, 0]));
}

#[test]
fn sort_independent_bindings_keep_index_order() {
    let u = users(&[&[], &[], &[(BindUsage::Executable, BindBorrowType::TakeRef)]]);
    assert_eq!(sort_bindings(&u), Ok(vec![0, 1, 2]));
}

#[test]
fn sort_detects_cycle() {
    let u = users(&[
        &[(BindUsage::Bind(1), BindBorrowType::Borrow)],
        &[(BindUsage::Bind(0), BindBorrowType::Borrow)],
    ]);
    assert_eq!(sort_bindings(&u), Err(SorterError::BindCycle));
    // A binding that borrows itself.
    let u = users(&[&[(BindUsage::Bind(0), BindBorrowType::Borrow)]]);
    assert_eq!(sort_bindings(&u), Err(SorterError::BindCycle));
}

#[test]
fn sort_detects_conflicting_takes() {
    let u = users(&[
        &[],
        &[(BindUsage::Executable, BindBorrowType::Take), (BindUsage::Executable, BindBorrowType::TakeRef)],
        &[(BindUsage::Executable, BindBorrowType::Take), (BindUsage::Bind(0), BindBorrowType::TakeMut)],
    ]);
    assert_eq!(
        sort_bindings(&u),
        Err(SorterError::ConflictingIndefiniteBorrow { bind_i: 1 })
    );
}

#[test]
fn sort_borrowers_before_taker() {
    // Binding 0 is taken by binding 1's initializer and borrowed by binding
    // 2's initializer: the borrow must happen before the take.
    let u = users(&[
        &[(BindUsage::Bind(1), BindBorrowType::Take), (BindUsage::Bind(2), BindBorrowType::Borrow)],
        &[],
        &[],
    ]);
    assert_eq!(sort_bindings(&u), Ok(vec![0, 2, 1]));
}

#[test]
fn topological_sort_prefers_ascending_order() {
    let u = users(&[&[(BindUsage::Bind(1), BindBorrowType::Borrow)], &[]]);
    let bi = vec![None, None];
    assert_eq!(topological_sort(&u, &bi), Some(vec![0, 1, 4]));
}

#[test]
fn vertex_order() {
    assert!(Vertex::BindInit(3).lt(&Vertex::BindDisown(0)));
    assert!(Vertex::BindDisown(5).lt(&Vertex::Executable));
    assert!(Vertex::BindInit(1).lt(&Vertex::BindInit(2)));
    assert!(!Vertex::Executable.lt(&Vertex::Executable));
}

#[test]
fn bindings_initialized_before_their_consumers() {
    let closure = |f: usize| Closure::from_raw_parts(f, ClosureEnv(f + 1000));
    let mut cfg = Cfg::new(RawCfg::new());
    let b0 = bind_default(&mut cfg, closure(10), 4, 4);
    let b1 = bind(vec![b0.take().dependency()], closure(11)).finish(&mut cfg, 8, 8);
    let b2 = bind(vec![b0.borrow().dependency()], closure(12)).finish(&mut cfg, 2, 2);
    let b3 = bind_uninit(&mut cfg, closure(13), 16, 8);
    assert_eq!(
        [b0.hunk().offset(), b1.hunk().offset(), b2.hunk().offset(), b3.hunk().offset()],
        [0, 8, 16, 24]
    );
    // Binding 1 takes binding 0, which binding 2 borrows: 2 must come before
    // 1; among the bindings that are ready, the one defined first comes first.
    assert_eq!(cfg.bind_registry.check_bindings(), Ok(()));
    CfgBindRegistry::finalize(&mut cfg);
    let hooks: Vec<(usize, usize, i32)> =
        cfg.startup_hooks.iter().map(|h| (h.start, h.param, h.priority)).collect();
    assert_eq!(
        hooks,
        vec![
            (10, 1010, INIT_HOOK_PRIORITY),
            (12, 1012, INIT_HOOK_PRIORITY),
            (13, 1013, INIT_HOOK_PRIORITY),
            (11, 1011, INIT_HOOK_PRIORITY),
        ]
    );
}

#[test]
fn check_bindings_rejects_conflicting_takes() {
    let closure = |f: usize| Closure::from_raw_parts(f, ClosureEnv(0));
    let mut cfg = Cfg::new(RawCfg::new());
    let b0 = bind_default(&mut cfg, closure(10), 4, 4);
    bind(vec![b0.take().dependency()], closure(11)).finish(&mut cfg, 4, 4);
    bind(vec![b0.take_ref().dependency()], closure(12)).finish(&mut cfg, 4, 4);
    assert_eq!(
        cfg.bind_registry.check_bindings(),
        Err(SorterError::ConflictingIndefiniteBorrow { bind_i: 0 })
    );
}

#[test]
fn check_bindings_detects_cycle() {
    let closure = |f: usize| Closure::from_raw_parts(f, ClosureEnv(0));
    let mut cfg = Cfg::new(RawCfg::new());
    let b0 = bind_default(&mut cfg, closure(10), 4, 4);
    // A binding that both takes binding 0 and, through its initializer,
    // borrows it: it must run both before and after binding 0 is disowned.
    bind(vec![b0.take().dependency(), b0.borrow().dependency()], closure(11)).finish(&mut cfg, 4, 4);
    assert_eq!(cfg.bind_registry.check_bindings(), Err(SorterError::BindCycle));
}
