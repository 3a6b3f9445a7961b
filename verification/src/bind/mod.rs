//! Bindings: static storage with runtime initialization and
//! configuration-time borrow checking.
use vstd::prelude::*;

pub mod sorter;

use self::sorter::{
    is_init_order, is_preferred_init_order, no_conflicts, sort_bindings, users_view, users_wf, SorterError,
};
use crate::closure::{Closure, ClosureEnv};
use crate::kernel::cfg::Cfg;
use crate::kernel::hook::{registered_in_order, CfgStartupHook, StartupHook};
use crate::kernel::hunk::{round_up, Hunk};

verus! {

/// A consumer of a binding.
#[derive(Debug, Clone, Copy, PartialEq, Eq, Structural)]
pub enum BindUsage {
    /// The initializer of another binding.
    Bind(usize),
    /// An executable object (a task, an interrupt handler, or a timer).
    Executable,
}

/// The way a binding is borrowed by a consumer.
#[derive(Debug, Clone, Copy, PartialEq, Eq, Structural)]
pub enum BindBorrowType {
    /// `&'call T`
    Borrow,
    /// `&'call mut T`
    BorrowMut,
    /// `T`
    Take,
    /// `&'static T`
    TakeRef,
    /// `&'static mut T`
    TakeMut,
}

} // verus!

verus! {

/// The priority of the startup hooks that initialize bindings.
pub const INIT_HOOK_PRIORITY: i32 = 0x4000_0000;

/// The configuration-time information about a binding: its initializer and
/// its consumers.
pub struct CfgBindInfo {
    pub initializer: Closure,
    pub users: Vec<(BindUsage, BindBorrowType)>,
}

/// The configuration-time registry of bindings.
pub struct CfgBindRegistry {
    pub binds: Vec<CfgBindInfo>,
}

/// The consumers of each binding.
pub open spec fn registry_users(reg: CfgBindRegistry) -> Seq<Seq<(BindUsage, BindBorrowType)>> {
    reg.binds@.map_values(|b: CfgBindInfo| b.users@)
}

/// The initializers of the bindings.
pub open spec fn registry_initializers(reg: CfgBindRegistry) -> Seq<Closure> {
    reg.binds@.map_values(|b: CfgBindInfo| b.initializer)
}

impl CfgBindRegistry {
    /// An empty registry.
    pub fn new_in() -> (r: Self)
        ensures
            r.binds@.len() == 0,
    {
        CfgBindRegistry { binds: Vec::new() }
    }

    /// Every consumer that is a binding refers to an existing binding, and
    /// executable objects never hold call-duration borrows.
    pub open spec fn wf(self) -> bool {
        users_wf(registry_users(self))
    }

    /// Check that the bindings can be initialized: no binding is borrowed in
    /// a way that violates the borrow rules, and their mutual dependencies
    /// admit an initialization order. Fails with the first binding that
    /// violates the borrow rules, or else with `BindCycle`.
    pub fn check_bindings(&self) -> (r: Result<(), SorterError>)
        requires
            self.wf(),
        ensures
            r is Ok <==> no_conflicts(registry_users(*self)) && exists|vs: Seq<usize>|
                sorter::is_topological_order(registry_users(*self), vs),
            r matches Err(SorterError::ConflictingIndefiniteBorrow { bind_i }) ==> bind_i
                < self.binds@.len() && sorter::is_conflicting(registry_users(*self)[bind_i as int])
                && forall|i: int| 0 <= i < bind_i ==> !#[trigger] sorter::is_conflicting(registry_users(*self)[i]),
            r matches Err(SorterError::BindCycle) ==> no_conflicts(registry_users(*self)) && forall|
                vs: Seq<usize>,
            | !sorter::is_topological_order(registry_users(*self), vs),
    {
        let users = copy_users(self);
        match sort_bindings(&users) {
            Ok(_) => Ok(()),
            Err(e) => Err(e),
        }
    }

    /// Determine the initialization order of the bindings and register, for
    /// each binding in that order, a startup hook that runs its initializer.
    ///
    /// No binding may be borrowed in a way that violates the borrow rules,
    /// and the bindings' mutual dependencies must admit an initialization
    /// order; [`Self::check_bindings`] tells whether they do.
    pub fn finalize(cfg: &mut Cfg)
        requires
            old(cfg).bind_registry.wf(),
            no_conflicts(registry_users(old(cfg).bind_registry)),
            exists|vs: Seq<usize>| sorter::is_topological_order(registry_users(old(cfg).bind_registry), vs),
        ensures
            exists|order: Seq<usize>|
                is_init_order(registry_users(old(cfg).bind_registry), order)
                    && is_preferred_init_order(registry_users(old(cfg).bind_registry), order)
                    && final(cfg).startup_hooks@
                    == old(cfg).startup_hooks@ + init_hooks(
                    registry_initializers(old(cfg).bind_registry),
                    order,
                    old(cfg).startup_hooks@.len(),
                ),
            final(cfg).same_except_hooks(*old(cfg)),
            registered_in_order(old(cfg).startup_hooks@) ==> registered_in_order(final(cfg).startup_hooks@),
    {
        let ghost us = registry_users(cfg.bind_registry);
        let ghost inits = registry_initializers(cfg.bind_registry);
        let users = copy_users(&cfg.bind_registry);
        let order = match sort_bindings(&users) {
            Ok(order) => order,
            Err(_) => {
                return ;
            },
        };
        let ghost old_cfg = *cfg;
        let ghost base = cfg.startup_hooks@.len();
        let mut i: usize = 0;
        while i < order.len()
            invariant
                us == registry_users(old_cfg.bind_registry),
                inits == registry_initializers(old_cfg.bind_registry),
                is_init_order(us, order@),
                base == old_cfg.startup_hooks@.len(),
                i <= order@.len(),
                cfg.startup_hooks@ == old_cfg.startup_hooks@ + init_hooks(inits, order@.take(i as int), base),
                cfg.same_except_hooks(old_cfg),
            decreases order@.len() - i,
        {
            let bind_i = order[i];
            assert(bind_i < us.len());
            let initializer = cfg.bind_registry.binds[bind_i].initializer;
            assert(initializer == inits[bind_i as int]);
            let (func, env) = initializer.as_raw_parts();
            StartupHook::define().start(func).param(env.0).priority(INIT_HOOK_PRIORITY).finish(cfg);
            proof {
                assert(order@.take(i as int + 1).drop_last() =~= order@.take(i as int));
                lemma_init_hooks_len(inits, order@.take(i as int), base);
                assert(base + i == old_cfg.startup_hooks@.len() + init_hooks(inits, order@.take(i as int), base).len());
                assert(cfg.startup_hooks@ =~= old_cfg.startup_hooks@ + init_hooks(inits, order@.take(i as int + 1), base));
            }
            i += 1;
        }
        assert(order@.take(order@.len() as int) =~= order@);
        let total = cfg.startup_hooks.len();
        proof {
            lemma_init_hooks_len(inits, order@, base);
            lemma_init_hooks_orders(inits, order@, base);
            if registered_in_order(old_cfg.startup_hooks@) {
                assert forall|k: int| 0 <= k < cfg.startup_hooks@.len() implies (#[trigger] cfg.startup_hooks@[k]).order
                    == k by {
                    if k >= base {
                        assert(cfg.startup_hooks@[k] == init_hooks(inits, order@, base)[k - base]);
                    } else {
                        assert(cfg.startup_hooks@[k] == old_cfg.startup_hooks@[k]);
                    }
                }
            }
        }
    }
}

/// The startup hooks that initialize the bindings in `order`, registered
/// after `base` other hooks.
pub open spec fn init_hooks(inits: Seq<Closure>, order: Seq<usize>, base: nat) -> Seq<CfgStartupHook>
    decreases order.len(),
{
    if order.len() == 0 {
        Seq::empty()
    } else {
        let rest = init_hooks(inits, order.drop_last(), base);
        let c = inits[order.last() as int];
        rest.push(
            CfgStartupHook {
                start: c.func_spec(),
                param: c.env_spec().0,
                priority: INIT_HOOK_PRIORITY,
                order: (base + order.len() - 1) as usize,
            },
        )
    }
}

/// The hooks that initialize the bindings are numbered in registration
/// order after the `base` hooks before them.
proof fn lemma_init_hooks_orders(inits: Seq<Closure>, order: Seq<usize>, base: nat)
    requires
        base + order.len() <= usize::MAX + 1,
    ensures
        forall|k: int| 0 <= k < order.len() ==> (#[trigger] init_hooks(inits, order, base)[k]).order == base + k,
    decreases order.len(),
{
    lemma_init_hooks_len(inits, order, base);
    if order.len() > 0 {
        lemma_init_hooks_orders(inits, order.drop_last(), base);
        lemma_init_hooks_len(inits, order.drop_last(), base);
    }
}

proof fn lemma_init_hooks_len(inits: Seq<Closure>, order: Seq<usize>, base: nat)
    ensures
        init_hooks(inits, order, base).len() == order.len(),
    decreases order.len(),
{
    if order.len() > 0 {
        lemma_init_hooks_len(inits, order.drop_last(), base);
    }
}

/// A copy of the consumers of each binding.
fn copy_users(reg: &CfgBindRegistry) -> (r: Vec<Vec<(BindUsage, BindBorrowType)>>)
    ensures
        users_view(&r) == registry_users(*reg),
{
    let mut out: Vec<Vec<(BindUsage, BindBorrowType)>> = Vec::new();
    let mut i: usize = 0;
    while i < reg.binds.len()
        invariant
            i <= reg.binds@.len(),
            out@.len() == i,
            users_view(&out) == registry_users(*reg).take(i as int),
        decreases reg.binds@.len() - i,
    {
        let users = &reg.binds[i].users;
        let mut copy: Vec<(BindUsage, BindBorrowType)> = Vec::new();
        let mut j: usize = 0;
        while j < users.len()
            invariant
                j <= users@.len(),
                copy@ == users@.take(j as int),
            decreases users@.len() - j,
        {
            copy.push(users[j]);
            assert(users@.take(j as int + 1) =~= users@.take(j as int).push(users@[j as int]));
            j += 1;
        }
        assert(users@.take(users@.len() as int) =~= users@);
        let ghost prev = out@;
        let ghost prev_view = users_view(&out);
        out.push(copy);
        assert forall|k: int| 0 <= k <= i implies #[trigger] users_view(&out)[k] == registry_users(*reg).take(
            i as int + 1,
        )[k] by {
            if k < i {
                assert(out@[k] == prev[k]);
                assert(prev_view[k] == prev[k]@);
            } else {
                assert(out@[k]@ == users@);
            }
        }
        assert(users_view(&out) =~= registry_users(*reg).take(i as int + 1));
        i += 1;
    }
    assert(registry_users(*reg).take(reg.binds@.len() as int) =~= registry_users(*reg));
    out
}

} // verus!

verus! {

/// A binding defined in a configuration: a static storage (a hunk) that an
/// initializer fills at startup, and that other objects consume.
#[derive(Debug, Clone, Copy, PartialEq, Eq, Structural)]
pub struct Bind {
    hunk: Hunk,
    bind_i: usize,
}

/// Borrows a binding for the duration of the consumer's call (`&'call T`).
#[derive(Debug, Clone, Copy, PartialEq, Eq, Structural)]
pub struct BindBorrow(pub Bind);

/// Borrows a binding mutably for the duration of the consumer's call
/// (`&'call mut T`).
#[derive(Debug, Clone, Copy, PartialEq, Eq, Structural)]
pub struct BindBorrowMut(pub Bind);

/// Moves a binding's value out (`T`).
#[derive(Debug, Clone, Copy, PartialEq, Eq, Structural)]
pub struct BindTake(pub Bind);

/// Borrows a binding indefinitely (`&'static T`).
#[derive(Debug, Clone, Copy, PartialEq, Eq, Structural)]
pub struct BindTakeRef(pub Bind);

/// Borrows a binding mutably and indefinitely (`&'static mut T`).
#[derive(Debug, Clone, Copy, PartialEq, Eq, Structural)]
pub struct BindTakeMut(pub Bind);

/// A reference to a binding that executable objects use through
/// [`BindTable`] (`&'static T`).
#[derive(Debug, Clone, Copy, PartialEq, Eq, Structural)]
pub struct BindRef(pub Hunk);

/// A dependency on a binding, as a consumer declares it.
#[derive(Debug, Clone, Copy, PartialEq, Eq, Structural)]
pub enum BindDependency {
    Borrow(usize),
    BorrowMut(usize),
    Take(usize),
    TakeRef(usize),
    TakeMut(usize),
    /// Already registered when the [`BindRef`] was created.
    Ref,
}

/// A borrow mode of a binding that a consumer can declare.
pub trait Binder {
    spec fn dependency_spec(&self) -> BindDependency;

    /// The dependency that consuming this binder declares.
    fn dependency(&self) -> (r: BindDependency)
        ensures
            r == self.dependency_spec(),
    ;
}

impl Binder for BindBorrow {
    open spec fn dependency_spec(&self) -> BindDependency {
        BindDependency::Borrow(self.0.index_spec())
    }

    fn dependency(&self) -> (r: BindDependency) {
        BindDependency::Borrow(self.0.bind_i)
    }
}

impl Binder for BindBorrowMut {
    open spec fn dependency_spec(&self) -> BindDependency {
        BindDependency::BorrowMut(self.0.index_spec())
    }

    fn dependency(&self) -> (r: BindDependency) {
        BindDependency::BorrowMut(self.0.bind_i)
    }
}

impl Binder for BindTake {
    open spec fn dependency_spec(&self) -> BindDependency {
        BindDependency::Take(self.0.index_spec())
    }

    fn dependency(&self) -> (r: BindDependency) {
        BindDependency::Take(self.0.bind_i)
    }
}

impl Binder for BindTakeRef {
    open spec fn dependency_spec(&self) -> BindDependency {
        BindDependency::TakeRef(self.0.index_spec())
    }

    fn dependency(&self) -> (r: BindDependency) {
        BindDependency::TakeRef(self.0.bind_i)
    }
}

impl Binder for BindTakeMut {
    open spec fn dependency_spec(&self) -> BindDependency {
        BindDependency::TakeMut(self.0.index_spec())
    }

    fn dependency(&self) -> (r: BindDependency) {
        BindDependency::TakeMut(self.0.bind_i)
    }
}

impl Binder for BindRef {
    open spec fn dependency_spec(&self) -> BindDependency {
        BindDependency::Ref
    }

    fn dependency(&self) -> (r: BindDependency) {
        BindDependency::Ref
    }
}

/// The binding that a dependency refers to, if it registers anything.
pub open spec fn dep_bind(dep: BindDependency) -> Option<usize> {
    match dep {
        BindDependency::Borrow(i) => Some(i),
        BindDependency::BorrowMut(i) => Some(i),
        BindDependency::Take(i) => Some(i),
        BindDependency::TakeRef(i) => Some(i),
        BindDependency::TakeMut(i) => Some(i),
        BindDependency::Ref => None,
    }
}

/// Whether a consumer of kind `usage` may declare `dep`: an executable
/// object may run many times, so it can neither move a value out nor hold an
/// indefinite mutable borrow obtained by `take_mut`; a binding initializer
/// cannot use a [`BindRef`].
pub open spec fn dep_allowed(dep: BindDependency, usage: BindUsage) -> bool {
    match (dep, usage) {
        (BindDependency::Take(_), BindUsage::Executable) => false,
        (BindDependency::TakeMut(_), BindUsage::Executable) => false,
        (BindDependency::Ref, BindUsage::Bind(_)) => false,
        _ => true,
    }
}

/// The borrow type that declaring `dep` registers for a consumer of kind
/// `usage`. Call-duration borrows by executable objects are indefinite.
pub open spec fn dep_borrow_type(dep: BindDependency, usage: BindUsage) -> BindBorrowType {
    match dep {
        BindDependency::Borrow(_) => if usage is Executable {
            BindBorrowType::TakeRef
        } else {
            BindBorrowType::Borrow
        },
        BindDependency::BorrowMut(_) => if usage is Executable {
            BindBorrowType::TakeMut
        } else {
            BindBorrowType::BorrowMut
        },
        BindDependency::Take(_) => BindBorrowType::Take,
        BindDependency::TakeRef(_) => BindBorrowType::TakeRef,
        _ => BindBorrowType::TakeMut,
    }
}

/// What declaring a dependency registers: a mutable or moving dependency
/// (`borrow_mut`, `take`, `take_mut`) gains exclusive access and a shared
/// one (`borrow`, `take_ref`) shared access; an executable object, which may
/// run at any time after startup, always borrows indefinitely, while a
/// binding initializer's `borrow` and `borrow_mut` last for its call only.
pub proof fn lemma_dep_borrow_type_access(dep: BindDependency, usage: BindUsage)
    requires
        dep_bind(dep) is Some,
    ensures
        ({
            let t = dep_borrow_type(dep, usage);
            &&& (t is BorrowMut || t is Take || t is TakeMut) <==> (dep is BorrowMut || dep is Take
                || dep is TakeMut)
            &&& usage is Executable ==> sorter::is_take(t)
            &&& usage is Bind ==> (sorter::is_borrow(t) <==> (dep is Borrow || dep is BorrowMut))
            &&& (t is Take) <==> (dep is Take)
        }),
{
}

/// Two executable objects cannot both use a binding when one of them
/// borrows it mutably (or takes it): registering their dependencies makes
/// the binding's consumers conflict.
pub proof fn lemma_executable_borrow_mut_conflicts(
    s: Seq<(BindUsage, BindBorrowType)>,
    k1: int,
    k2: int,
    dep1: BindDependency,
    dep2: BindDependency,
)
    requires
        0 <= k1 < s.len(),
        0 <= k2 < s.len(),
        k1 != k2,
        dep_bind(dep1) is Some,
        dep_bind(dep2) is Some,
        dep1 is BorrowMut || dep1 is Take || dep1 is TakeMut,
        s[k1] == (BindUsage::Executable, dep_borrow_type(dep1, BindUsage::Executable)),
        s[k2] == (BindUsage::Executable, dep_borrow_type(dep2, BindUsage::Executable)),
    ensures
        sorter::is_conflicting(s),
{
    lemma_dep_borrow_type_access(dep1, BindUsage::Executable);
    lemma_dep_borrow_type_access(dep2, BindUsage::Executable);
    sorter::lemma_exclusive_take_conflicts(s, k1, k2);
}

/// The consumers of each binding after a consumer of kind `usage` declares
/// `deps`, in order.
pub open spec fn users_after_deps(
    users: Seq<Seq<(BindUsage, BindBorrowType)>>,
    deps: Seq<BindDependency>,
    usage: BindUsage,
) -> Seq<Seq<(BindUsage, BindBorrowType)>>
    decreases deps.len(),
{
    if deps.len() == 0 {
        users
    } else {
        let prev = users_after_deps(users, deps.drop_last(), usage);
        let dep = deps.last();
        match dep_bind(dep) {
            Some(i) => prev.update(i as int, prev[i as int].push((usage, dep_borrow_type(dep, usage)))),
            None => prev,
        }
    }
}

/// Every declared dependency is allowed and refers to one of the first `n`
/// bindings.
pub open spec fn deps_ok(deps: Seq<BindDependency>, usage: BindUsage, n: int) -> bool {
    forall|k: int|
        0 <= k < deps.len() ==> dep_allowed(#[trigger] deps[k], usage) && match dep_bind(deps[k]) {
            Some(i) => i < n,
            None => true,
        }
}

/// Every consumer that is a binding is below `bound`, and executable objects
/// never hold call-duration borrows.
pub open spec fn users_bounded(users: Seq<Seq<(BindUsage, BindBorrowType)>>, bound: int) -> bool {
    forall|i: int, j: int|
        0 <= i < users.len() && 0 <= j < users[i].len() ==> match #[trigger] users[i][j] {
            (BindUsage::Bind(k), _) => k < bound,
            (BindUsage::Executable, t) => !sorter::is_borrow(t),
        }
}

fn dep_borrow_type_exec(dep: BindDependency, usage: BindUsage) -> (r: BindBorrowType)
    ensures
        r == dep_borrow_type(dep, usage),
{
    let exe = match usage {
        BindUsage::Executable => true,
        BindUsage::Bind(_) => false,
    };
    match dep {
        BindDependency::Borrow(_) => if exe {
            BindBorrowType::TakeRef
        } else {
            BindBorrowType::Borrow
        },
        BindDependency::BorrowMut(_) => if exe {
            BindBorrowType::TakeMut
        } else {
            BindBorrowType::BorrowMut
        },
        BindDependency::Take(_) => BindBorrowType::Take,
        BindDependency::TakeRef(_) => BindBorrowType::TakeRef,
        _ => BindBorrowType::TakeMut,
    }
}

impl CfgBindRegistry {
    /// Append a consumer to the list of binding `i`.
    fn push_user(&mut self, i: usize, entry: (BindUsage, BindBorrowType))
        requires
            i < old(self).binds@.len(),
        ensures
            registry_users(*final(self)) == registry_users(*old(self)).update(
                i as int,
                registry_users(*old(self))[i as int].push(entry),
            ),
            registry_initializers(*final(self)) == registry_initializers(*old(self)),
            final(self).binds@.len() == old(self).binds@.len(),
    {
        let ghost old_users = registry_users(*self);
        let ghost old_inits = registry_initializers(*self);
        let initializer = self.binds[i].initializer;
        let mut users: Vec<(BindUsage, BindBorrowType)> = Vec::new();
        let mut j: usize = 0;
        while j < self.binds[i].users.len()
            invariant
                i < self.binds@.len(),
                j <= self.binds@[i as int].users@.len(),
                users@ == self.binds@[i as int].users@.take(j as int),
            decreases self.binds@[i as int].users@.len() - j,
        {
            users.push(self.binds[i].users[j]);
            assert(self.binds@[i as int].users@.take(j as int + 1) =~= self.binds@[i as int].users@.take(
                j as int,
            ).push(self.binds@[i as int].users@[j as int]));
            j += 1;
        }
        assert(self.binds@[i as int].users@.take(self.binds@[i as int].users@.len() as int)
            =~= self.binds@[i as int].users@);
        users.push(entry);
        self.binds.set(i, CfgBindInfo { initializer, users });
        assert(registry_users(*self) =~= old_users.update(i as int, old_users[i as int].push(entry)));
        assert(registry_initializers(*self) =~= old_inits);
    }

    /// Register the dependencies that a consumer of kind `usage` declares.
    fn register_dependencies(&mut self, deps: &Vec<BindDependency>, usage: BindUsage)
        requires
            deps_ok(deps@, usage, old(self).binds@.len() as int),
        ensures
            registry_users(*final(self)) == users_after_deps(registry_users(*old(self)), deps@, usage),
            registry_initializers(*final(self)) == registry_initializers(*old(self)),
            final(self).binds@.len() == old(self).binds@.len(),
    {
        let ghost old_users = registry_users(*self);
        let ghost old_inits = registry_initializers(*self);
        let mut k: usize = 0;
        while k < deps.len()
            invariant
                deps_ok(deps@, usage, self.binds@.len() as int),
                k <= deps@.len(),
                registry_users(*self) == users_after_deps(old_users, deps@.take(k as int), usage),
                registry_initializers(*self) == old_inits,
                self.binds@.len() == old_users.len(),
            decreases deps@.len() - k,
        {
            let dep = deps[k];
            assert(deps@.take(k as int + 1).drop_last() =~= deps@.take(k as int));
            assert(deps@.take(k as int + 1).last() == dep);
            let target = match dep {
                BindDependency::Borrow(i) => Some(i),
                BindDependency::BorrowMut(i) => Some(i),
                BindDependency::Take(i) => Some(i),
                BindDependency::TakeRef(i) => Some(i),
                BindDependency::TakeMut(i) => Some(i),
                BindDependency::Ref => None,
            };
            if let Some(i) = target {
                let t = dep_borrow_type_exec(dep, usage);
                self.push_user(i, (usage, t));
            }
            k += 1;
        }
        assert(deps@.take(deps@.len() as int) =~= deps@);
    }
}

/// Registering allowed dependencies keeps every consumer bounded.
proof fn lemma_users_after_deps_bounded(
    users: Seq<Seq<(BindUsage, BindBorrowType)>>,
    deps: Seq<BindDependency>,
    usage: BindUsage,
    bound: int,
)
    requires
        users_bounded(users, bound),
        deps_ok(deps, usage, users.len() as int),
        usage matches BindUsage::Bind(k) ==> k < bound,
    ensures
        users_bounded(users_after_deps(users, deps, usage), bound),
        users_after_deps(users, deps, usage).len() == users.len(),
    decreases deps.len(),
{
    if deps.len() > 0 {
        assert(deps_ok(deps.drop_last(), usage, users.len() as int)) by {
            assert forall|k: int| 0 <= k < deps.len() - 1 implies #[trigger] deps.drop_last()[k] == deps[k] by {}
        }
        lemma_users_after_deps_bounded(users, deps.drop_last(), usage, bound);
        let prev = users_after_deps(users, deps.drop_last(), usage);
        let dep = deps.last();
        assert(dep_allowed(deps[deps.len() - 1], usage));
        match dep_bind(dep) {
            Some(i) => {
                let next = prev.update(i as int, prev[i as int].push((usage, dep_borrow_type(dep, usage))));
                assert forall|a: int, b: int| 0 <= a < next.len() && 0 <= b < next[a].len() implies match #[trigger] next[a][b] {
                    (BindUsage::Bind(k), _) => k < bound,
                    (BindUsage::Executable, t) => !sorter::is_borrow(t),
                } by {
                    if a == i as int && b == prev[a].len() {
                    } else if a == i as int {
                        assert(next[a][b] == prev[a][b]);
                    } else {
                        assert(next[a][b] == prev[a][b]);
                    }
                }
            },
            None => {},
        }
    }
}

impl Bind {
    pub closed spec fn index_spec(self) -> usize {
        self.bind_i
    }

    pub closed spec fn hunk_spec(self) -> Hunk {
        self.hunk
    }

    /// Construct a `BindDefiner` to define a binding in a configuration
    /// function.
    pub fn define() -> (r: BindDefiner)
        ensures
            r.deps@.len() == 0,
            r.initializer is None,
    {
        BindDefiner::new()
    }

    /// The index of the binding in the registry.
    pub fn hunk_index(&self) -> (r: usize)
        ensures
            r == self.index_spec(),
    {
        self.bind_i
    }

    /// The hunk that holds the binding's value.
    pub fn hunk(&self) -> (r: Hunk)
        ensures
            r == self.hunk_spec(),
    {
        self.hunk
    }

    /// Borrow the binding for the duration of the consumer's call.
    pub fn borrow(&self) -> (r: BindBorrow)
        ensures
            r.dependency_spec() == BindDependency::Borrow(self.index_spec()),
    {
        BindBorrow(*self)
    }

    /// Borrow the binding mutably for the duration of the consumer's call.
    pub fn borrow_mut(&self) -> (r: BindBorrowMut)
        ensures
            r.dependency_spec() == BindDependency::BorrowMut(self.index_spec()),
    {
        BindBorrowMut(*self)
    }

    /// Move the binding's value out.
    pub fn take(&self) -> (r: BindTake)
        ensures
            r.dependency_spec() == BindDependency::Take(self.index_spec()),
    {
        BindTake(*self)
    }

    /// Borrow the binding indefinitely.
    pub fn take_ref(&self) -> (r: BindTakeRef)
        ensures
            r.dependency_spec() == BindDependency::TakeRef(self.index_spec()),
    {
        BindTakeRef(*self)
    }

    /// Borrow the binding mutably and indefinitely.
    pub fn take_mut(&self) -> (r: BindTakeMut)
        ensures
            r.dependency_spec() == BindDependency::TakeMut(self.index_spec()),
    {
        BindTakeMut(*self)
    }

    /// Create a reference to the binding for use by executable objects. This
    /// registers an indefinite shared borrow by executable objects.
    pub fn as_ref(&self, cfg: &mut Cfg) -> (r: BindRef)
        requires
            self.index_spec() < old(cfg).bind_registry.binds@.len(),
            old(cfg).bind_registry.wf(),
        ensures
            r.0 == self.hunk_spec(),
            registry_users(final(cfg).bind_registry) == registry_users(old(cfg).bind_registry).update(
                self.index_spec() as int,
                registry_users(old(cfg).bind_registry)[self.index_spec() as int].push(
                    (BindUsage::Executable, BindBorrowType::TakeRef),
                ),
            ),
            registry_initializers(final(cfg).bind_registry) == registry_initializers(old(cfg).bind_registry),
            final(cfg).bind_registry.wf(),
            final(cfg).same_except_bind_registry(*old(cfg)),
    {
        let ghost old_users = registry_users(cfg.bind_registry);
        cfg.bind_registry.push_user(self.bind_i, (BindUsage::Executable, BindBorrowType::TakeRef));
        proof {
            let users = registry_users(cfg.bind_registry);
            assert forall|i: int, j: int| 0 <= i < users.len() && 0 <= j < users[i].len() implies match #[trigger] users[i][j] {
                (BindUsage::Bind(k), _) => k < users.len(),
                (BindUsage::Executable, t) => !sorter::is_borrow(t),
            } by {
                if i == self.bind_i as int && j == old_users[i].len() {
                } else {
                    assert(users[i][j] == old_users[i][j]);
                }
            }
        }
        BindRef(self.hunk)
    }
}

/// Marks a [`BindDefiner`] whose binder has not been specified.
#[derive(Debug, Clone, Copy, PartialEq, Eq, Structural)]
pub struct BinderUnspecified;

/// Marks a [`BindDefiner`] whose initializer has not been specified.
#[derive(Debug, Clone, Copy, PartialEq, Eq, Structural)]
pub struct FuncUnspecified;

/// The definer (static builder) for [`Bind`].
pub struct BindDefiner {
    pub deps: Vec<BindDependency>,
    pub initializer: Option<Closure>,
}

impl BindDefiner {
    fn new() -> (r: Self)
        ensures
            r.deps@.len() == 0,
            r.initializer is None,
    {
        BindDefiner { deps: Vec::new(), initializer: None }
    }

    /// Specify the initializer, which consumes no other binding.
    pub fn init(self, func: Closure) -> (r: Self)
        ensures
            r.deps@ == self.deps@,
            r.initializer == Some(func),
    {
        BindDefiner { initializer: Some(func), ..self }
    }

    /// Specify the initializer and the bindings that it consumes.
    pub fn init_with_bind(self, binder: Vec<BindDependency>, func: Closure) -> (r: Self)
        ensures
            r.deps@ == binder@,
            r.initializer == Some(func),
    {
        BindDefiner { deps: binder, initializer: Some(func) }
    }

    /// Mark the binding as impure, i.e., as having side effects so that it is
    /// kept even if nothing consumes it.
    pub fn unpure(self) -> (r: Self)
        ensures
            r.deps@ == self.deps@,
            r.initializer == self.initializer,
    {
        self
    }

    /// Complete the definition of the binding: allocate a zero-initialized
    /// hunk of `size` bytes aligned to `align` for its value, register its
    /// dependencies, and register it.
    pub fn finish(self, cfg: &mut Cfg, size: usize, align: usize) -> (r: Bind)
        requires
            self.initializer is Some,
            deps_ok(self.deps@, BindUsage::Bind(old(cfg).bind_registry.binds@.len() as usize), old(cfg).bind_registry.binds@.len() as int),
            old(cfg).bind_registry.wf(),
            old(cfg).bind_registry.binds@.len() + 1 <= (usize::MAX - 1) / 2,
            align > 0,
            old(cfg).hunk_pool_len + align - 1 <= usize::MAX,
            round_up(old(cfg).hunk_pool_len as int, align as int) + size <= usize::MAX,
        ensures
            r.index_spec() == old(cfg).bind_registry.binds@.len(),
            r.hunk_spec().offset_spec() == round_up(old(cfg).hunk_pool_len as int, align as int),
            final(cfg).hunk_pool_len == r.hunk_spec().offset_spec() + size,
            final(cfg).hunk_pool_align == if align > old(cfg).hunk_pool_align { align } else { old(cfg).hunk_pool_align },
            registry_users(final(cfg).bind_registry) == users_after_deps(
                registry_users(old(cfg).bind_registry),
                self.deps@,
                BindUsage::Bind(r.index_spec()),
            ).push(Seq::empty()),
            registry_initializers(final(cfg).bind_registry) == registry_initializers(old(cfg).bind_registry).push(
                self.initializer->0,
            ),
            final(cfg).bind_registry.binds@.len() == old(cfg).bind_registry.binds@.len() + 1,
            final(cfg).bind_registry.wf(),
            final(cfg).same_except(*old(cfg), false, false, true, false, false, true),
    {
        let hunk = Hunk::build().len(size).align(align).finish(cfg);
        let bind_i = cfg.bind_registry.binds.len();
        let ghost users0 = registry_users(cfg.bind_registry);
        let ghost inits0 = registry_initializers(cfg.bind_registry);
        proof {
            lemma_users_after_deps_bounded(users0, self.deps@, BindUsage::Bind(bind_i), bind_i as int + 1);
        }
        cfg.bind_registry.register_dependencies(&self.deps, BindUsage::Bind(bind_i));
        let initializer = match self.initializer {
            Some(c) => c,
            None => Closure::from_raw_parts(0, ClosureEnv(0)),
        };
        let ghost users1 = registry_users(cfg.bind_registry);
        cfg.bind_registry.binds.push(CfgBindInfo { initializer, users: Vec::new() });
        proof {
            let users = registry_users(cfg.bind_registry);
            assert(users =~= users1.push(Seq::empty()));
            assert(registry_initializers(cfg.bind_registry) =~= inits0.push(initializer));
            assert forall|i: int, j: int| 0 <= i < users.len() && 0 <= j < users[i].len() implies match #[trigger] users[i][j] {
                (BindUsage::Bind(k), _) => k < users.len(),
                (BindUsage::Executable, t) => !sorter::is_borrow(t),
            } by {
                assert(i < users1.len());
                assert(users[i][j] == users1[i][j]);
            }
        }
        Bind { hunk, bind_i }
    }
}

/// Define a binding whose initializer consumes the bindings that `binder`
/// declares.
pub fn bind(binder: Vec<BindDependency>, func: Closure) -> (r: BindDefiner)
    ensures
        r.deps@ == binder@,
        r.initializer == Some(func),
{
    Bind::define().init_with_bind(binder, func)
}

/// Define a binding initialized by the default initializer of its type,
/// `default_init`, with a value of `size` bytes aligned to `align`.
pub fn bind_default(cfg: &mut Cfg, default_init: Closure, size: usize, align: usize) -> (r: Bind)
    requires
        old(cfg).bind_registry.wf(),
        old(cfg).bind_registry.binds@.len() + 1 <= (usize::MAX - 1) / 2,
        align > 0,
        old(cfg).hunk_pool_len + align - 1 <= usize::MAX,
        round_up(old(cfg).hunk_pool_len as int, align as int) + size <= usize::MAX,
    ensures
        r.index_spec() == old(cfg).bind_registry.binds@.len(),
        r.hunk_spec().offset_spec() == round_up(old(cfg).hunk_pool_len as int, align as int),
        final(cfg).hunk_pool_len == r.hunk_spec().offset_spec() + size,
        registry_users(final(cfg).bind_registry) == registry_users(old(cfg).bind_registry).push(Seq::empty()),
        registry_initializers(final(cfg).bind_registry) == registry_initializers(old(cfg).bind_registry).push(
            default_init,
        ),
        final(cfg).bind_registry.wf(),
        final(cfg).same_except(*old(cfg), false, false, true, false, false, true),
{
    let d = Bind::define().init(default_init);
    proof {
        assert(users_after_deps(registry_users(cfg.bind_registry), d.deps@, BindUsage::Bind(cfg.bind_registry.binds@.len() as usize)) == registry_users(cfg.bind_registry));
    }
    d.finish(cfg, size, align)
}

/// Define a binding that is left uninitialized (its initializer `noop` does
/// nothing), for storage that its consumers initialize lazily; the value is
/// `size` bytes long and aligned to `align`.
pub fn bind_uninit(cfg: &mut Cfg, noop: Closure, size: usize, align: usize) -> (r: Bind)
    requires
        old(cfg).bind_registry.wf(),
        old(cfg).bind_registry.binds@.len() + 1 <= (usize::MAX - 1) / 2,
        align > 0,
        old(cfg).hunk_pool_len + align - 1 <= usize::MAX,
        round_up(old(cfg).hunk_pool_len as int, align as int) + size <= usize::MAX,
    ensures
        r.index_spec() == old(cfg).bind_registry.binds@.len(),
        r.hunk_spec().offset_spec() == round_up(old(cfg).hunk_pool_len as int, align as int),
        final(cfg).hunk_pool_len == r.hunk_spec().offset_spec() + size,
        registry_users(final(cfg).bind_registry) == registry_users(old(cfg).bind_registry).push(Seq::empty()),
        registry_initializers(final(cfg).bind_registry) == registry_initializers(old(cfg).bind_registry).push(
            noop,
        ),
        final(cfg).bind_registry.wf(),
        final(cfg).same_except(*old(cfg), false, false, true, false, false, true),
{
    bind_default(cfg, noop, size, align)
}

/// Register the dependencies that an executable object's entry point
/// declares, and return its entry point. An executable object may run many
/// times, so it cannot move a binding's value out or borrow it by `take_mut`.
pub fn start_with_bind(cfg: &mut Cfg, binder: &Vec<BindDependency>, func: Closure) -> (r: Closure)
    requires
        deps_ok(binder@, BindUsage::Executable, old(cfg).bind_registry.binds@.len() as int),
        old(cfg).bind_registry.wf(),
    ensures
        r == func,
        registry_users(final(cfg).bind_registry) == users_after_deps(
            registry_users(old(cfg).bind_registry),
            binder@,
            BindUsage::Executable,
        ),
        registry_initializers(final(cfg).bind_registry) == registry_initializers(old(cfg).bind_registry),
        final(cfg).bind_registry.wf(),
        final(cfg).same_except_bind_registry(*old(cfg)),
{
    proof {
        lemma_users_after_deps_bounded(
            registry_users(cfg.bind_registry),
            binder@,
            BindUsage::Executable,
            cfg.bind_registry.binds@.len() as int,
        );
    }
    cfg.bind_registry.register_dependencies(binder, BindUsage::Executable);
    func
}

} // verus!

verus! {

/// The definer of an executable object: a task, an interrupt handler, or a
/// timer. Its entry point can consume bindings (see [`start_with_bind`]).
pub trait ExecutableDefiner: Sized {
    spec fn start_spec(self, start: Closure) -> Self;

    /// Specify the entry point as a closure.
    fn start_closure(self, start: Closure) -> (r: Self)
        ensures
            r == self.start_spec(start),
    ;
}

} // verus!
