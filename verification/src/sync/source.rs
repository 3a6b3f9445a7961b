//! The sources of the initial values of synchronization primitives.
use vstd::prelude::*;

use crate::bind::{
    bind, bind_default, registry_initializers, registry_users, Bind, BindBorrowType, BindDependency,
    BindUsage,
};
use crate::closure::Closure;
use crate::kernel::cfg::Cfg;
use crate::kernel::hunk::{round_up, Hunk};

verus! {

/// Use the default value of the type, produced by its default initializer
/// `init`; the value is `size` bytes long and aligned to `align`.
#[derive(Debug, Clone, Copy, PartialEq, Eq, Structural)]
pub struct DefaultSource {
    pub init: Closure,
    pub size: usize,
    pub align: usize,
}

/// Use a new binding, initialized by `func` from the bindings that `binder`
/// declares.
pub struct NewBindSource {
    pub binder: Vec<BindDependency>,
    pub func: Closure,
    pub size: usize,
    pub align: usize,
}

/// Take an existing binding.
#[derive(Debug, Clone, Copy, PartialEq, Eq, Structural)]
pub struct TakeBindSource(pub Bind);

/// Use an existing hunk, which the caller initializes.
#[derive(Debug, Clone, Copy, PartialEq, Eq, Structural)]
pub struct HunkSource(pub Hunk);

/// Where the initial value of a synchronization primitive comes from.
pub enum Source {
    Default(DefaultSource),
    NewBind(NewBindSource),
    TakeBind(TakeBindSource),
    Hunk(HunkSource),
}

/// The configuration can register `k` more bindings.
pub open spec fn bind_room(cfg: Cfg, k: int) -> bool {
    &&& cfg.bind_registry.wf()
    &&& cfg.bind_registry.binds@.len() + k + 1 <= (usize::MAX - 1) / 2
}

impl TakeBindSource {
    /// Take the binding by registering an impure binding that borrows it
    /// mutably and indefinitely, and return the binding's hunk. `noop` is the
    /// initializer of the registered binding, which does nothing.
    pub fn into_unsafe_cell_hunk(self, cfg: &mut Cfg, noop: Closure) -> (r: Hunk)
        requires
            self.0.index_spec() < old(cfg).bind_registry.binds@.len(),
            bind_room(*old(cfg), 0),
            old(cfg).hunk_pool_len < usize::MAX,
        ensures
            r == self.0.hunk_spec(),
            registry_users(final(cfg).bind_registry) == registry_users(old(cfg).bind_registry).update(
                self.0.index_spec() as int,
                registry_users(old(cfg).bind_registry)[self.0.index_spec() as int].push(
                    (BindUsage::Bind(old(cfg).bind_registry.binds@.len() as usize), BindBorrowType::TakeMut),
                ),
            ).push(Seq::empty()),
            registry_initializers(final(cfg).bind_registry) == registry_initializers(old(cfg).bind_registry).push(
                noop,
            ),
            final(cfg).bind_registry.wf(),
            final(cfg).same_except(*old(cfg), false, false, true, false, false, true),
    {
        let mut deps: Vec<BindDependency> = Vec::new();
        deps.push(BindDependency::TakeMut(self.0.hunk_index()));
        proof {
            lemma_round_up_one(cfg.hunk_pool_len as int);
            let users = registry_users(cfg.bind_registry);
            let n = cfg.bind_registry.binds@.len();
            assert(deps@.drop_last() =~= Seq::<BindDependency>::empty());
            assert(deps@.last() == BindDependency::TakeMut(self.0.index_spec()));
            assert(crate::bind::users_after_deps(users, deps@.drop_last(), BindUsage::Bind(n as usize)) == users);
            assert(crate::bind::users_after_deps(users, deps@, BindUsage::Bind(n as usize)) == users.update(
                self.0.index_spec() as int,
                users[self.0.index_spec() as int].push((BindUsage::Bind(n as usize), BindBorrowType::TakeMut)),
            ));
        }
        bind(deps, noop).unpure().finish(cfg, 0, 1);
        self.0.hunk()
    }
}

proof fn lemma_round_up_one(x: int)
    requires
        x >= 0,
    ensures
        round_up(x, 1) == x,
{
}

impl DefaultSource {
    /// Define a binding initialized to the default value, take it, and return
    /// its hunk.
    pub fn into_unsafe_cell_hunk(self, cfg: &mut Cfg, noop: Closure) -> (r: Hunk)
        requires
            bind_room(*old(cfg), 1),
            self.align > 0,
            old(cfg).hunk_pool_len + self.align - 1 <= usize::MAX,
            round_up(old(cfg).hunk_pool_len as int, self.align as int) + self.size < usize::MAX,
        ensures
            r.offset_spec() == round_up(old(cfg).hunk_pool_len as int, self.align as int),
            registry_users(final(cfg).bind_registry) == registry_users(old(cfg).bind_registry).push(
                seq![(BindUsage::Bind((old(cfg).bind_registry.binds@.len() + 1) as usize), BindBorrowType::TakeMut)],
            ).push(Seq::empty()),
            registry_initializers(final(cfg).bind_registry) == registry_initializers(old(cfg).bind_registry).push(
                self.init,
            ).push(noop),
            final(cfg).bind_registry.wf(),
            final(cfg).same_except(*old(cfg), false, false, true, false, false, true),
    {
        let ghost users0 = registry_users(cfg.bind_registry);
        let b = bind_default(cfg, self.init, self.size, self.align);
        let r = TakeBindSource(b).into_unsafe_cell_hunk(cfg, noop);
        proof {
            let n = users0.len();
            assert(Seq::<(BindUsage, BindBorrowType)>::empty().push(
                (BindUsage::Bind((n + 1) as usize), BindBorrowType::TakeMut),
            ) =~= seq![(BindUsage::Bind((n + 1) as usize), BindBorrowType::TakeMut)]);
            assert(registry_users(cfg.bind_registry) =~= users0.push(
                seq![(BindUsage::Bind((n + 1) as usize), BindBorrowType::TakeMut)],
            ).push(Seq::empty()));
        }
        r
    }
}

impl NewBindSource {
    /// Define a binding initialized by `func` from the bindings that `binder`
    /// declares, take it, and return its hunk.
    pub fn into_unsafe_cell_hunk(self, cfg: &mut Cfg, noop: Closure) -> (r: Hunk)
        requires
            bind_room(*old(cfg), 1),
            crate::bind::deps_ok(
                self.binder@,
                BindUsage::Bind(old(cfg).bind_registry.binds@.len() as usize),
                old(cfg).bind_registry.binds@.len() as int,
            ),
            self.align > 0,
            old(cfg).hunk_pool_len + self.align - 1 <= usize::MAX,
            round_up(old(cfg).hunk_pool_len as int, self.align as int) + self.size < usize::MAX,
        ensures
            r.offset_spec() == round_up(old(cfg).hunk_pool_len as int, self.align as int),
            registry_users(final(cfg).bind_registry) == crate::bind::users_after_deps(
                registry_users(old(cfg).bind_registry),
                self.binder@,
                BindUsage::Bind(old(cfg).bind_registry.binds@.len() as usize),
            ).push(
                seq![(BindUsage::Bind((old(cfg).bind_registry.binds@.len() + 1) as usize), BindBorrowType::TakeMut)],
            ).push(Seq::empty()),
            registry_initializers(final(cfg).bind_registry) == registry_initializers(old(cfg).bind_registry).push(
                self.func,
            ).push(noop),
            final(cfg).bind_registry.wf(),
            final(cfg).same_except(*old(cfg), false, false, true, false, false, true),
    {
        let ghost n = cfg.bind_registry.binds@.len();
        let ghost users1 = crate::bind::users_after_deps(
            registry_users(cfg.bind_registry),
            self.binder@,
            BindUsage::Bind(n as usize),
        );
        let b = bind(self.binder, self.func).finish(cfg, self.size, self.align);
        let r = TakeBindSource(b).into_unsafe_cell_hunk(cfg, noop);
        proof {
            assert(Seq::<(BindUsage, BindBorrowType)>::empty().push(
                (BindUsage::Bind((n + 1) as usize), BindBorrowType::TakeMut),
            ) =~= seq![(BindUsage::Bind((n + 1) as usize), BindBorrowType::TakeMut)]);
            assert(registry_users(cfg.bind_registry) =~= users1.push(
                seq![(BindUsage::Bind((n + 1) as usize), BindBorrowType::TakeMut)],
            ).push(Seq::empty()));
        }
        r
    }
}

impl HunkSource {
    /// The hunk itself.
    pub fn into_unsafe_cell_hunk(self) -> (r: Hunk)
        ensures
            r == self.0,
    {
        self.0
    }
}

} // verus!
