//! Startup hooks.
use vstd::prelude::*;

use super::cfg::Cfg;
use super::raw::EntryFn;
use crate::utils::{sort_unstable_by, SortKey};

verus! {

/// Represents a registered startup hook.
#[derive(Debug, Clone, Copy, PartialEq, Eq, Structural)]
pub struct StartupHook {
    _private: u8,
}

impl StartupHook {
    /// Construct a `StartupHookDefiner` to register a startup hook in
    /// a configuration function.
    pub fn define() -> (r: StartupHookDefiner)
        ensures
            r == StartupHookDefiner::initial_spec(),
    {
        StartupHookDefiner::new()
    }

    /// The token that a registration hands back.
    fn new() -> (r: Self)
        ensures
            r == (StartupHook { _private: 0 }),
    {
        StartupHook { _private: 0 }
    }
}

/// The definer (static builder) for [`StartupHook`].
#[derive(Debug, Clone, Copy, PartialEq, Eq, Structural)]
pub struct StartupHookDefiner {
    pub start: Option<EntryFn>,
    pub param: usize,
    pub priority: i32,
    pub unchecked: bool,
}

impl StartupHookDefiner {
    pub open spec fn initial_spec() -> StartupHookDefiner {
        StartupHookDefiner { start: None, param: 0, priority: 0, unchecked: false }
    }

    /// A definer with no entry point, parameter `0` and priority `0`.
    pub fn new() -> (r: Self)
        ensures
            r == Self::initial_spec(),
    {
        StartupHookDefiner { start: None, param: 0, priority: 0, unchecked: false }
    }

    /// Specify the entry point.
    pub fn start(self, start: EntryFn) -> (r: Self)
        ensures
            r == (StartupHookDefiner { start: Some(start), ..self }),
    {
        StartupHookDefiner { start: Some(start), ..self }
    }

    /// Specify the parameter to the entry point. Defaults to `0`.
    pub fn param(self, param: usize) -> (r: Self)
        ensures
            r == (StartupHookDefiner { param, ..self }),
    {
        StartupHookDefiner { param, ..self }
    }

    /// Specify the execution priority. Defaults to `0`. Startup hooks execute
    /// in ascending order of priority, and those with the same priority in
    /// the order of registration.
    pub fn priority(self, priority: i32) -> (r: Self)
        ensures
            r == (StartupHookDefiner { priority, ..self }),
    {
        StartupHookDefiner { priority, ..self }
    }

    /// Allow a negative priority, which is otherwise reserved.
    pub fn unchecked(self) -> (r: Self)
        ensures
            r == (StartupHookDefiner { unchecked: true, ..self }),
    {
        StartupHookDefiner { unchecked: true, ..self }
    }

    /// Complete the definition of a startup hook. The entry point must have
    /// been specified, and a negative priority requires [`Self::unchecked`].
    pub fn finish(self, cfg: &mut Cfg) -> (r: StartupHook)
        requires
            self.start is Some,
            self.priority >= 0 || self.unchecked,
        ensures
            final(cfg).startup_hooks@ == old(cfg).startup_hooks@.push(
                CfgStartupHook {
                    start: self.start->0,
                    param: self.param,
                    priority: self.priority,
                    order: old(cfg).startup_hooks@.len() as usize,
                },
            ),
            final(cfg).same_except_hooks(*old(cfg)),
    {
        let order = cfg.startup_hooks.len();
        let start = match self.start {
            Some(s) => s,
            None => 0,
        };
        cfg.startup_hooks.push(
            CfgStartupHook { start, param: self.param, priority: self.priority, order },
        );
        StartupHook::new()
    }
}

/// A startup hook registered in a configuration.
#[derive(Debug, Clone, Copy, PartialEq, Eq, Structural)]
pub struct CfgStartupHook {
    pub start: EntryFn,
    pub param: usize,
    pub priority: i32,
    pub order: usize,
}

/// The execution order of startup hooks: by priority, then by the order of
/// registration.
impl SortKey for CfgStartupHook {
    open spec fn sort_key(&self) -> int {
        self.priority as int * 0x1_0000_0000_0000_0000 + self.order as int
    }

    fn key_lt(&self, other: &Self) -> (r: bool) {
        if self.priority != other.priority {
            self.priority < other.priority
        } else {
            self.order < other.order
        }
    }
}

/// Sort the startup hooks by their execution order.
pub fn sort_hooks(startup_hooks: &mut Vec<CfgStartupHook>)
    ensures
        final(startup_hooks)@.to_multiset() == old(startup_hooks)@.to_multiset(),
        crate::utils::is_sorted_by_key(final(startup_hooks)@),
{
    sort_unstable_by(startup_hooks);
}

/// Each startup hook of `hooks` carries its position as its registration
/// order, as [`StartupHookDefiner::finish`] assigns it.
pub open spec fn registered_in_order(hooks: Seq<CfgStartupHook>) -> bool {
    forall|i: int| 0 <= i < hooks.len() ==> (#[trigger] hooks[i]).order == i
}

/// Registering a startup hook keeps the hooks registered in order.
pub proof fn lemma_finish_keeps_registration_order(
    hooks: Seq<CfgStartupHook>,
    start: EntryFn,
    param: usize,
    priority: i32,
)
    requires
        registered_in_order(hooks),
        hooks.len() <= usize::MAX,
    ensures
        registered_in_order(
            hooks.push(CfgStartupHook { start, param, priority, order: hooks.len() as usize }),
        ),
{
}

/// Of any two hooks of `hooks`, the earlier one has the lower priority, or
/// the same priority and the earlier registration.
pub open spec fn in_execution_order(hooks: Seq<CfgStartupHook>) -> bool {
    forall|i: int, j: int|
        0 <= i < j < hooks.len() ==> (#[trigger] hooks[i]).priority < (#[trigger] hooks[j]).priority
            || (hooks[i].priority == hooks[j].priority && hooks[i].order < hooks[j].order)
}

/// Startup hooks execute in ascending order of priority, and those with the
/// same priority in the order of registration: once the registered hooks are
/// sorted by [`sort_hooks`], of two hooks the earlier one has the lower
/// priority, or the same priority and the earlier registration.
pub proof fn lemma_startup_hook_order(registered: Seq<CfgStartupHook>, sorted: Seq<CfgStartupHook>)
    requires
        registered_in_order(registered),
        sorted.to_multiset() == registered.to_multiset(),
        crate::utils::is_sorted_by_key(sorted),
    ensures
        in_execution_order(sorted),
{
    broadcast use vstd::seq_lib::group_to_multiset_ensures;

    assert(registered.no_duplicates()) by {
        assert forall|a: int, b: int| 0 <= a < registered.len() && 0 <= b < registered.len() && a != b implies registered[a]
            != registered[b] by {
            assert(registered[a].order == a);
            assert(registered[b].order == b);
        }
    }
    registered.lemma_multiset_has_no_duplicates();
    sorted.lemma_multiset_has_no_duplicates_conv();
    assert forall|i: int, j: int| 0 <= i < j < sorted.len() implies (#[trigger] sorted[i]).priority < (
    #[trigger] sorted[j]).priority || (sorted[i].priority == sorted[j].priority && sorted[i].order
        < sorted[j].order) by {
        assert(sorted[i].sort_key() <= sorted[j].sort_key());
        assert(sorted.to_multiset().count(sorted[i]) > 0);
        assert(sorted.to_multiset().count(sorted[j]) > 0);
        assert(registered.contains(sorted[i]));
        assert(registered.contains(sorted[j]));
        let a = choose|a: int| 0 <= a < registered.len() && registered[a] == sorted[i];
        let b = choose|b: int| 0 <= b < registered.len() && registered[b] == sorted[j];
        assert(registered[a].order == a);
        assert(registered[b].order == b);
        assert(sorted[i] != sorted[j]);
        assert(sorted[i].order != sorted[j].order);
    }
}

/// The run-time attributes of a startup hook.
#[derive(Debug, Clone, Copy, PartialEq, Eq, Structural)]
pub struct StartupHookAttr {
    pub start: EntryFn,
    pub param: usize,
}

impl CfgStartupHook {
    /// The run-time attributes of the hook.
    pub fn to_attr(&self) -> (r: StartupHookAttr)
        ensures
            r == (StartupHookAttr { start: self.start, param: self.param }),
    {
        StartupHookAttr { start: self.start, param: self.param }
    }
}

} // verus!
