//! The configuration of a system.
use vstd::prelude::*;

use super::hook::{
    in_execution_order, lemma_startup_hook_order, registered_in_order, sort_hooks, CfgStartupHook,
    StartupHookAttr,
};
use super::interrupt::{
    find_unsafe_handler, handler_is_safe, panic_if_unmanaged_safety_is_violated, sort_handlers, sorted_by_line, CfgInterruptHandler,
    CfgInterruptLineInfo, ManagedInterrupts,
};
use super::raw::EntryFn;
use super::raw_cfg::{CfgBase, CfgInterruptLine, InterruptLineDescriptor, RawCfg};
use crate::bind::CfgBindRegistry;
use crate::utils::{is_sorted_by_key, SortKey};

verus! {

/// The stage of a configuration.
#[derive(Debug, Clone, Copy, PartialEq, Eq, Structural)]
pub enum CfgSt {
    /// A configuration that is finalized in one pass by
    /// [`Cfg::finish_pre`], [`Cfg::finish_interrupt`] and
    /// [`Cfg::finish_post`].
    Single,
    Phase1,
    Phase2,
    Phase3 { interrupts: bool },
}

/// Wraps the kernel's configuration recorder ([`RawCfg`]) and collects the
/// objects defined by the configuration functions.
pub struct Cfg {
    pub raw: RawCfg,
    pub st: CfgSt,
    pub finish_phase: u8,
    pub finish_interrupt_phase: u8,
    pub startup_hooks: Vec<CfgStartupHook>,
    pub hunk_pool_len: usize,
    pub hunk_pool_align: usize,
    pub interrupt_lines: Vec<CfgInterruptLineInfo>,
    pub interrupt_handlers: Vec<CfgInterruptHandler>,
    pub bind_registry: CfgBindRegistry,
}

/// The data that a configuration produces for the kernel.
pub struct KernelStaticParams {
    pub startup_hooks: Vec<StartupHookAttr>,
    pub hunk_pool_len: usize,
    pub hunk_pool_align: usize,
    pub interrupt_handlers: Vec<CfgInterruptHandler>,
}

/// The data that the first configuration phase produces.
pub struct CfgPhase1Data {
    pub startup_hooks: Vec<StartupHookAttr>,
    pub hunk_pool_len: usize,
    pub hunk_pool_align: usize,
    pub interrupt_handlers: Vec<CfgInterruptHandler>,
}

/// The data that the second configuration phase produces.
pub struct CfgPhase2Data {
    _private: u8,
}

/// The data that the third configuration phase produces.
pub struct CfgPhase3Data {
    _private: u8,
}

/// The descriptor of an interrupt line, given the table of combined
/// handlers indexed by line.
pub open spec fn line_descriptor(info: CfgInterruptLineInfo, table: Seq<Option<usize>>) -> InterruptLineDescriptor {
    InterruptLineDescriptor {
        line: info.num,
        priority: info.priority,
        start: if info.num < table.len() {
            table[info.num as int]
        } else {
            None
        },
        enabled: info.enabled,
    }
}

/// The startup hooks are sorted by priority, then by registration order, and
/// the handlers by line, then priority, then registration order; both hold
/// the same entries as before.
pub open spec fn sorted_from(old_cfg: Cfg, new_cfg: Cfg) -> bool {
    &&& new_cfg.startup_hooks@.to_multiset() == old_cfg.startup_hooks@.to_multiset()
    &&& is_sorted_by_key(new_cfg.startup_hooks@)
    &&& new_cfg.interrupt_handlers@.to_multiset() == old_cfg.interrupt_handlers@.to_multiset()
    &&& is_sorted_by_key(new_cfg.interrupt_handlers@)
    &&& sorted_by_line(new_cfg.interrupt_handlers@)
}

/// The run-time attributes of the startup hooks, in order.
pub open spec fn attrs_of(hooks: Seq<CfgStartupHook>, attrs: Seq<StartupHookAttr>) -> bool {
    &&& attrs.len() == hooks.len()
    &&& forall|i: int|
        0 <= i < hooks.len() ==> #[trigger] attrs[i] == (StartupHookAttr { start: hooks[i].start, param: hooks[i].param })
}

/// Handlers sorted by key are sorted by line.
pub proof fn lemma_sorted_by_key_sorted_by_line(handlers: Seq<CfgInterruptHandler>)
    requires
        is_sorted_by_key(handlers),
    ensures
        sorted_by_line(handlers),
{
    assert forall|i: int, j: int| 0 <= i < j < handlers.len() implies (#[trigger] handlers[i]).line
        <= (#[trigger] handlers[j]).line by {
        let a = handlers[i];
        let b = handlers[j];
        assert(a.sort_key() <= b.sort_key());
        if a.line > b.line {
            let ra = (a.priority as int + 0x8000_0000) * 0x1_0000_0000_0000_0000 + a.order as int;
            let rb = (b.priority as int + 0x8000_0000) * 0x1_0000_0000_0000_0000 + b.order as int;
            assert(0 <= ra < 0x1_0000_0000_0000_0000_0000_0000_0000_0000);
            assert(0 <= rb < 0x1_0000_0000_0000_0000_0000_0000_0000_0000);
            assert(a.line as int * 0x1_0000_0000_0000_0000_0000_0000_0000_0000 >= (b.line as int + 1)
                * 0x1_0000_0000_0000_0000_0000_0000_0000_0000);
        }
    }
}

impl Cfg {
    /// Every field but those whose flag is `true` is the same in `self` and
    /// `other`.
    pub open spec fn same_except(
        self,
        other: Cfg,
        raw: bool,
        hooks: bool,
        pool: bool,
        lines: bool,
        handlers: bool,
        binds: bool,
    ) -> bool {
        &&& (!raw ==> self.raw == other.raw)
        &&& self.st == other.st
        &&& self.finish_phase == other.finish_phase
        &&& self.finish_interrupt_phase == other.finish_interrupt_phase
        &&& (!hooks ==> self.startup_hooks@ == other.startup_hooks@)
        &&& (!pool ==> self.hunk_pool_len == other.hunk_pool_len && self.hunk_pool_align == other.hunk_pool_align)
        &&& (!lines ==> self.interrupt_lines@ == other.interrupt_lines@)
        &&& (!handlers ==> self.interrupt_handlers@ == other.interrupt_handlers@)
        &&& (!binds ==> self.bind_registry == other.bind_registry)
    }

    pub open spec fn same_except_hooks(self, other: Cfg) -> bool {
        self.same_except(other, false, true, false, false, false, false)
    }

    pub open spec fn same_except_hunk_pool(self, other: Cfg) -> bool {
        self.same_except(other, false, false, true, false, false, false)
    }

    pub open spec fn same_except_interrupt_lines(self, other: Cfg) -> bool {
        self.same_except(other, false, false, false, true, false, false)
    }

    pub open spec fn same_except_interrupts(self, other: Cfg) -> bool {
        self.same_except(other, false, false, false, true, true, false)
    }

    pub open spec fn same_except_raw(self, other: Cfg) -> bool {
        self.same_except(other, true, false, false, false, false, false)
    }

    pub open spec fn same_except_bind_registry(self, other: Cfg) -> bool {
        self.same_except(other, false, false, false, false, false, true)
    }

    pub open spec fn initial_spec(self, raw: RawCfg, st: CfgSt) -> bool {
        &&& self.raw == raw
        &&& self.st == st
        &&& self.finish_phase == 0
        &&& self.finish_interrupt_phase == 0
        &&& self.startup_hooks@.len() == 0
        &&& self.hunk_pool_len == 0
        &&& self.hunk_pool_align == 1
        &&& self.interrupt_lines@.len() == 0
        &&& self.interrupt_handlers@.len() == 0
        &&& self.bind_registry.binds@.len() == 0
    }

    fn new_in(raw: RawCfg, st: CfgSt) -> (r: Cfg)
        ensures
            r.initial_spec(raw, st),
    {
        Cfg {
            raw,
            st,
            finish_phase: 0,
            finish_interrupt_phase: 0,
            startup_hooks: Vec::new(),
            hunk_pool_len: 0,
            hunk_pool_align: 1,
            interrupt_lines: Vec::new(),
            interrupt_handlers: Vec::new(),
            bind_registry: CfgBindRegistry::new_in(),
        }
    }

    /// Start a configuration that is finalized in one pass.
    pub fn new(raw: RawCfg) -> (r: Cfg)
        ensures
            r.initial_spec(raw, CfgSt::Single),
    {
        Self::new_in(raw, CfgSt::Single)
    }

    /// Start the first configuration phase.
    pub fn __internal_new_phase1(raw: RawCfg) -> (r: Cfg)
        ensures
            r.initial_spec(raw, CfgSt::Phase1),
    {
        Self::new_in(raw, CfgSt::Phase1)
    }

    /// Start the second configuration phase.
    pub fn __internal_new_phase2(raw: RawCfg) -> (r: Cfg)
        ensures
            r.initial_spec(raw, CfgSt::Phase2),
    {
        Self::new_in(raw, CfgSt::Phase2)
    }

    /// Start the third configuration phase.
    pub fn __internal_new_phase3(raw: RawCfg) -> (r: Cfg)
        ensures
            r.initial_spec(raw, CfgSt::Phase3 { interrupts: false }),
    {
        Self::new_in(raw, CfgSt::Phase3 { interrupts: false })
    }

    /// Get a reference to the kernel's configuration recorder.
    pub fn raw(&mut self) -> (r: &mut RawCfg)
        ensures
            *r == old(self).raw,
            *final(self) == (Cfg { raw: *final(r), ..*old(self) }),
    {
        &mut self.raw
    }

    /// Specify the number of task priority levels.
    pub fn num_task_priority_levels(&mut self, new_value: usize)
        ensures
            final(self).raw.num_task_priority_levels == new_value,
            final(self).raw.startup_hook == old(self).raw.startup_hook,
            final(self).raw.same_objects(old(self).raw),
            final(self).same_except_raw(*old(self)),
    {
        self.raw.num_task_priority_levels(new_value);
    }

    /// Sort the startup hooks and the interrupt handlers.
    fn sort_all(&mut self)
        ensures
            sorted_from(*old(self), *final(self)),
            final(self).same_except(*old(self), false, true, false, false, true, false),
    {
        sort_hooks(&mut self.startup_hooks);
        sort_handlers(&mut self.interrupt_handlers);
        proof {
            lemma_sorted_by_key_sorted_by_line(self.interrupt_handlers@);
        }
    }

    /// The run-time attributes of the startup hooks.
    fn hook_attrs(&self) -> (r: Vec<StartupHookAttr>)
        ensures
            attrs_of(self.startup_hooks@, r@),
    {
        let mut out: Vec<StartupHookAttr> = Vec::new();
        let mut i: usize = 0;
        while i < self.startup_hooks.len()
            invariant
                i <= self.startup_hooks@.len(),
                out@.len() == i,
                forall|k: int|
                    0 <= k < i ==> #[trigger] out@[k] == (StartupHookAttr {
                        start: self.startup_hooks@[k].start,
                        param: self.startup_hooks@[k].param,
                    }),
            decreases self.startup_hooks@.len() - i,
        {
            out.push(self.startup_hooks[i].to_attr());
            i += 1;
        }
        out
    }

    fn copy_handlers(&self) -> (r: Vec<CfgInterruptHandler>)
        ensures
            r@ == self.interrupt_handlers@,
    {
        let mut out: Vec<CfgInterruptHandler> = Vec::new();
        let mut i: usize = 0;
        while i < self.interrupt_handlers.len()
            invariant
                i <= self.interrupt_handlers@.len(),
                out@ == self.interrupt_handlers@.take(i as int),
            decreases self.interrupt_handlers@.len() - i,
        {
            out.push(self.interrupt_handlers[i]);
            assert(self.interrupt_handlers@.take(i as int + 1) =~= self.interrupt_handlers@.take(i as int).push(
                self.interrupt_handlers@[i as int],
            ));
            i += 1;
        }
        assert(self.interrupt_handlers@.take(self.interrupt_handlers@.len() as int) =~= self.interrupt_handlers@);
        out
    }

    /// Define every configured interrupt line in the kernel, with the
    /// combined handler that `handler_table` gives for its line, and then
    /// clear the lists of lines and handlers.
    fn define_interrupt_lines(&mut self, handler_table: &Vec<Option<usize>>)
        ensures
            final(self).raw.interrupt_lines@ == old(self).raw.interrupt_lines@ + old(self).interrupt_lines@.map_values(
                |info: CfgInterruptLineInfo| line_descriptor(info, handler_table@),
            ),
            final(self).raw.same_settings(old(self).raw),
            final(self).raw.same_objects_except(old(self).raw, false, false, false, false, false, true),
            final(self).interrupt_lines@.len() == 0,
            final(self).interrupt_handlers@.len() == 0,
            final(self).same_except(*old(self), true, false, false, true, true, false),
    {
        let ghost old_raw_lines = self.raw.interrupt_lines@;
        let ghost lines = self.interrupt_lines@;
        let ghost descs = lines.map_values(|info: CfgInterruptLineInfo| line_descriptor(info, handler_table@));
        let ghost old_self = *self;
        let mut i: usize = 0;
        while i < self.interrupt_lines.len()
            invariant
                lines == self.interrupt_lines@,
                descs == lines.map_values(|info: CfgInterruptLineInfo| line_descriptor(info, handler_table@)),
                i <= lines.len(),
                self.raw.interrupt_lines@ == old_raw_lines + descs.take(i as int),
                self.raw.same_settings(old_self.raw),
                self.raw.same_objects_except(old_self.raw, false, false, false, false, false, true),
                self.same_except(old_self, true, false, false, false, false, false),
            decreases lines.len() - i,
        {
            let info = self.interrupt_lines[i];
            let start = if info.num < handler_table.len() {
                handler_table[info.num]
            } else {
                None
            };
            self.raw.interrupt_line_define(
                InterruptLineDescriptor { line: info.num, priority: info.priority, start, enabled: info.enabled },
            );
            assert(descs.take(i as int + 1) =~= descs.take(i as int).push(descs[i as int]));
            i += 1;
        }
        assert(descs.take(lines.len() as int) =~= descs);
        self.interrupt_lines = Vec::new();
        self.interrupt_handlers = Vec::new();
    }

    /// Finalize the configuration: sort the startup hooks and the interrupt
    /// handlers, and produce the data for the kernel.
    pub fn finish_pre(&mut self) -> (r: KernelStaticParams)
        requires
            old(self).st == CfgSt::Single,
            old(self).finish_phase == 0,
        ensures
            final(self).finish_phase == 1,
            sorted_from(*old(self), *final(self)),
            final(self).same_except(
                Cfg { finish_phase: 1, ..*old(self) },
                false,
                true,
                false,
                false,
                true,
                false,
            ),
            registered_in_order(old(self).startup_hooks@) ==> in_execution_order(final(self).startup_hooks@),
            attrs_of(final(self).startup_hooks@, r.startup_hooks@),
            r.hunk_pool_len == old(self).hunk_pool_len,
            r.hunk_pool_align == old(self).hunk_pool_align,
            r.interrupt_handlers@ == final(self).interrupt_handlers@,
    {
        let ghost old_hooks = self.startup_hooks@;
        self.finish_phase = 1;
        self.sort_all();
        proof {
            if registered_in_order(old_hooks) {
                lemma_startup_hook_order(old_hooks, self.startup_hooks@);
            }
        }
        KernelStaticParams {
            startup_hooks: self.hook_attrs(),
            hunk_pool_len: self.hunk_pool_len,
            hunk_pool_align: self.hunk_pool_align,
            interrupt_handlers: self.copy_handlers(),
        }
    }

    /// Define the configured interrupt lines in the kernel. `handler_table`
    /// is the table of combined handlers indexed by line. Every handler that
    /// is not marked `unmanaged` must be attached to a managed line.
    pub fn finish_interrupt(&mut self, handler_table: &Vec<Option<usize>>, managed: &ManagedInterrupts)
        requires
            old(self).st == CfgSt::Single,
            old(self).finish_phase == 1,
            old(self).finish_interrupt_phase == 0,
            forall|i: int|
                0 <= i < old(self).interrupt_handlers@.len() ==> handler_is_safe(
                    old(self).interrupt_lines@,
                    *managed,
                    #[trigger] old(self).interrupt_handlers@[i],
                ),
        ensures
            final(self).finish_interrupt_phase == 1,
            final(self).raw.interrupt_lines@ == old(self).raw.interrupt_lines@ + old(self).interrupt_lines@.map_values(
                |info: CfgInterruptLineInfo| line_descriptor(info, handler_table@),
            ),
            final(self).raw.same_settings(old(self).raw),
            final(self).raw.same_objects_except(old(self).raw, false, false, false, false, false, true),
            final(self).interrupt_lines@.len() == 0,
            final(self).interrupt_handlers@.len() == 0,
            final(self).same_except(
                Cfg { finish_interrupt_phase: 1, ..*old(self) },
                true,
                false,
                false,
                true,
                true,
                false,
            ),
    {
        self.finish_interrupt_phase = 1;
        panic_if_unmanaged_safety_is_violated(&self.interrupt_lines, &self.interrupt_handlers, managed);
        self.define_interrupt_lines(handler_table);
    }

    /// Complete the configuration: register the combined startup hook, which
    /// calls the startup hooks in order, and hand back the kernel's
    /// configuration recorder.
    pub fn finish_post(self, combined_startup_hook: EntryFn) -> (r: RawCfg)
        requires
            self.st == CfgSt::Single,
            self.finish_phase == 1,
            self.interrupt_lines@.len() == 0,
            self.interrupt_handlers@.len() == 0,
        ensures
            r.startup_hook == Some(combined_startup_hook),
            r.num_task_priority_levels == self.raw.num_task_priority_levels,
            r.same_objects(self.raw),
    {
        let mut raw = self.raw;
        raw.startup_hook_define(combined_startup_hook);
        raw
    }

    /// Complete the first configuration phase.
    pub fn finish_phase1(&mut self) -> (r: CfgPhase1Data)
        requires
            old(self).st == CfgSt::Phase1,
        ensures
            sorted_from(*old(self), *final(self)),
            final(self).same_except(*old(self), false, true, false, false, true, false),
            registered_in_order(old(self).startup_hooks@) ==> in_execution_order(final(self).startup_hooks@),
            attrs_of(final(self).startup_hooks@, r.startup_hooks@),
            r.hunk_pool_len == old(self).hunk_pool_len,
            r.hunk_pool_align == old(self).hunk_pool_align,
            r.interrupt_handlers@ == final(self).interrupt_handlers@,
    {
        let ghost old_hooks = self.startup_hooks@;
        self.sort_all();
        proof {
            if registered_in_order(old_hooks) {
                lemma_startup_hook_order(old_hooks, self.startup_hooks@);
            }
        }
        CfgPhase1Data {
            startup_hooks: self.hook_attrs(),
            hunk_pool_len: self.hunk_pool_len,
            hunk_pool_align: self.hunk_pool_align,
            interrupt_handlers: self.copy_handlers(),
        }
    }

    /// Complete the second configuration phase.
    pub fn finish_phase2(&mut self) -> (r: CfgPhase2Data)
        requires
            old(self).st == CfgSt::Phase2,
        ensures
            sorted_from(*old(self), *final(self)),
            final(self).same_except(*old(self), false, true, false, false, true, false),
    {
        self.sort_all();
        CfgPhase2Data { _private: 0 }
    }

    /// Define the configured interrupt lines in the kernel during the third
    /// phase. This may be done only once.
    pub fn finish_phase3_interrupt(&mut self, handler_table: &Vec<Option<usize>>, managed: &ManagedInterrupts)
        requires
            old(self).st == (CfgSt::Phase3 { interrupts: false }),
            forall|i: int|
                0 <= i < old(self).interrupt_handlers@.len() ==> handler_is_safe(
                    old(self).interrupt_lines@,
                    *managed,
                    #[trigger] old(self).interrupt_handlers@[i],
                ),
        ensures
            final(self).st == (CfgSt::Phase3 { interrupts: true }),
            final(self).raw.interrupt_lines@ == old(self).raw.interrupt_lines@ + old(self).interrupt_lines@.map_values(
                |info: CfgInterruptLineInfo| line_descriptor(info, handler_table@),
            ),
            final(self).raw.same_settings(old(self).raw),
            final(self).raw.same_objects_except(old(self).raw, false, false, false, false, false, true),
            final(self).interrupt_lines@.len() == 0,
            final(self).interrupt_handlers@.len() == 0,
            final(self).same_except(
                Cfg { st: CfgSt::Phase3 { interrupts: true }, ..*old(self) },
                true,
                false,
                false,
                true,
                true,
                false,
            ),
    {
        self.st = CfgSt::Phase3 { interrupts: true };
        panic_if_unmanaged_safety_is_violated(&self.interrupt_lines, &self.interrupt_handlers, managed);
        self.define_interrupt_lines(handler_table);
    }

    /// Complete the third configuration phase: register the combined startup
    /// hook and hand back the kernel's configuration recorder.
    pub fn finish_phase3(self, combined_startup_hook: EntryFn) -> (r: (RawCfg, CfgPhase3Data))
        requires
            self.st is Phase3,
            self.interrupt_lines@.len() == 0,
            self.interrupt_handlers@.len() == 0,
        ensures
            r.0.startup_hook == Some(combined_startup_hook),
            r.0.num_task_priority_levels == self.raw.num_task_priority_levels,
            r.0.same_objects(self.raw),
    {
        let mut raw = self.raw;
        raw.startup_hook_define(combined_startup_hook);
        (raw, CfgPhase3Data { _private: 0 })
    }

    /// Check the unmanaged safety of the configured interrupt handlers.
    /// Returns the index of the first handler that violates it.
    pub fn check_interrupt_safety(&self, managed: &ManagedInterrupts) -> (r: Result<(), usize>)
        ensures
            r is Ok <==> forall|i: int|
                0 <= i < self.interrupt_handlers@.len() ==> handler_is_safe(
                    self.interrupt_lines@,
                    *managed,
                    #[trigger] self.interrupt_handlers@[i],
                ),
            r matches Err(i) ==> i < self.interrupt_handlers@.len() && !handler_is_safe(
                self.interrupt_lines@,
                *managed,
                self.interrupt_handlers@[i as int],
            ) && forall|k: int|
                0 <= k < i ==> handler_is_safe(self.interrupt_lines@, *managed, #[trigger] self.interrupt_handlers@[k]),
    {
        find_unsafe_handler(&self.interrupt_lines, &self.interrupt_handlers, managed)
    }
}

} // verus!
