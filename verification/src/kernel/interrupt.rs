//! Interrupt lines and interrupt handlers.
use vstd::prelude::*;

use super::cfg::Cfg;
use super::raw::{EntryFn, InterruptNum, InterruptPriority};
use crate::utils::{sort_unstable_by, SortKey};

verus! {

/// Represents an interrupt line.
#[derive(Debug, Clone, Copy, PartialEq, Eq, Structural)]
pub struct InterruptLine(InterruptNum);

impl InterruptLine {
    pub closed spec fn num_spec(self) -> InterruptNum {
        self.0
    }

    /// Two interrupt lines are equal exactly when their numbers are.
    pub proof fn lemma_num_injective(a: InterruptLine, b: InterruptLine)
        ensures
            (a == b) <==> (a.num_spec() == b.num_spec()),
    {
    }

    /// Construct an `InterruptLine` from an interrupt number.
    pub fn from_num(num: InterruptNum) -> (r: Self)
        ensures
            r.num_spec() == num,
    {
        InterruptLine(num)
    }

    /// The interrupt number.
    pub fn num(self) -> (r: InterruptNum)
        ensures
            r == self.num_spec(),
    {
        self.0
    }

    /// Construct an `InterruptLineDefiner` to configure an interrupt line in
    /// a configuration function.
    pub fn build() -> (r: InterruptLineDefiner)
        ensures
            r == InterruptLineDefiner::initial_spec(),
    {
        InterruptLineDefiner::new()
    }

    /// Whether the kernel would accept `value` as the line's priority: only
    /// priorities within the managed range may be set through this
    /// interface.
    pub fn set_priority_allowed(value: InterruptPriority, managed: &ManagedInterrupts) -> (r: bool)
        ensures
            r == (managed.priority_start <= value < managed.priority_end),
    {
        managed.priority_start <= value && value < managed.priority_end
    }
}

/// The kernel's static interrupt management parameters: the range of
/// interrupt priorities that the kernel manages, and the lines that are
/// always managed.
pub struct ManagedInterrupts {
    pub priority_start: InterruptPriority,
    pub priority_end: InterruptPriority,
    pub lines: Vec<InterruptNum>,
}

/// Represents a registered (second-level) interrupt handler.
#[derive(Debug, Clone, Copy, PartialEq, Eq, Structural)]
pub struct InterruptHandler {
    _private: u8,
}

impl InterruptHandler {
    /// The token that a registration hands back.
    fn new() -> (r: Self)
        ensures
            r == (InterruptHandler { _private: 0 }),
    {
        InterruptHandler { _private: 0 }
    }

    /// Construct an `InterruptHandlerDefiner` to register an interrupt
    /// handler in a configuration function.
    pub fn build() -> (r: InterruptHandlerDefiner)
        ensures
            r == InterruptHandlerDefiner::initial_spec(),
    {
        InterruptHandlerDefiner::new()
    }
}

/// The definer (static builder) for [`InterruptLine`].
#[derive(Debug, Clone, Copy, PartialEq, Eq, Structural)]
pub struct InterruptLineDefiner {
    pub line: Option<InterruptNum>,
    pub priority: Option<InterruptPriority>,
    pub enabled: bool,
}

/// The configuration of an interrupt line collected so far.
#[derive(Debug, Clone, Copy, PartialEq, Eq, Structural)]
pub struct CfgInterruptLineInfo {
    pub num: InterruptNum,
    pub priority: Option<InterruptPriority>,
    pub enabled: bool,
}

/// The position of the first line numbered `num` in `lines`, or
/// `lines.len()` if there is none.
pub open spec fn line_pos(lines: Seq<CfgInterruptLineInfo>, num: InterruptNum) -> int
    decreases lines.len(),
{
    if lines.len() == 0 {
        0
    } else if line_pos(lines.drop_last(), num) < lines.len() - 1 {
        line_pos(lines.drop_last(), num)
    } else if lines.last().num == num {
        lines.len() - 1
    } else {
        lines.len() as int
    }
}

proof fn lemma_line_pos(lines: Seq<CfgInterruptLineInfo>, num: InterruptNum)
    ensures
        0 <= line_pos(lines, num) <= lines.len(),
        line_pos(lines, num) < lines.len() ==> lines[line_pos(lines, num)].num == num,
        forall|k: int| 0 <= k < line_pos(lines, num) ==> #[trigger] lines[k].num != num,
    decreases lines.len(),
{
    if lines.len() > 0 {
        lemma_line_pos(lines.drop_last(), num);
        assert forall|k: int| 0 <= k < line_pos(lines, num) implies #[trigger] lines[k].num != num by {
            if k < lines.len() - 1 {
                assert(lines.drop_last()[k] == lines[k]);
            }
        }
    }
}

/// Find the first line numbered `num`.
fn find_line(lines: &Vec<CfgInterruptLineInfo>, num: InterruptNum) -> (r: usize)
    ensures
        r == line_pos(lines@, num),
{
    let mut i: usize = 0;
    while i < lines.len()
        invariant
            i <= lines.len(),
            forall|k: int| 0 <= k < i ==> #[trigger] lines@[k].num != num,
        decreases lines.len() - i,
    {
        if lines[i].num == num {
            proof {
                lemma_pos_is_first(lines@, num, i as int);
            }
            return i;
        }
        i += 1;
    }
    proof {
        lemma_pos_is_first(lines@, num, lines.len() as int);
    }
    i
}

/// `line_pos` is the first position holding `num`.
proof fn lemma_pos_is_first(lines: Seq<CfgInterruptLineInfo>, num: InterruptNum, i: int)
    requires
        0 <= i <= lines.len(),
        i < lines.len() ==> lines[i].num == num,
        forall|k: int| 0 <= k < i ==> #[trigger] lines[k].num != num,
    ensures
        line_pos(lines, num) == i,
    decreases lines.len(),
{
    if lines.len() > 0 {
        if i < lines.len() {
            if i < lines.len() - 1 {
                lemma_pos_is_first(lines.drop_last(), num, i);
            } else {
                lemma_pos_is_first(lines.drop_last(), num, i);
            }
        } else {
            lemma_pos_is_first(lines.drop_last(), num, i - 1);
        }
    }
}

/// The interrupt line list after a line definer with `line`, `priority` and
/// `enabled` completes.
pub open spec fn lines_after_define(
    lines: Seq<CfgInterruptLineInfo>,
    line: InterruptNum,
    priority: Option<InterruptPriority>,
    enabled: bool,
) -> Seq<CfgInterruptLineInfo> {
    let i = line_pos(lines, line);
    if i < lines.len() {
        lines.update(
            i,
            CfgInterruptLineInfo {
                num: line,
                priority: if priority is Some { priority } else { lines[i].priority },
                enabled: lines[i].enabled || enabled,
            },
        )
    } else {
        lines.push(CfgInterruptLineInfo { num: line, priority, enabled })
    }
}

impl InterruptLineDefiner {
    pub open spec fn initial_spec() -> InterruptLineDefiner {
        InterruptLineDefiner { line: None, priority: None, enabled: false }
    }

    /// A definer with nothing specified yet.
    pub fn new() -> (r: Self)
        ensures
            r == Self::initial_spec(),
    {
        InterruptLineDefiner { line: None, priority: None, enabled: false }
    }

    /// Specify the interrupt line to configure. It may be specified only
    /// once.
    pub fn line(self, line: InterruptNum) -> (r: Self)
        requires
            self.line is None,
        ensures
            r == (InterruptLineDefiner { line: Some(line), ..self }),
    {
        InterruptLineDefiner { line: Some(line), ..self }
    }

    /// Specify the initial priority. It may be specified only once.
    pub fn priority(self, priority: InterruptPriority) -> (r: Self)
        requires
            self.priority is None,
        ensures
            r == (InterruptLineDefiner { priority: Some(priority), ..self }),
    {
        InterruptLineDefiner { priority: Some(priority), ..self }
    }

    /// Specify whether the interrupt line should be enabled at system
    /// startup. Defaults to `false` (don't enable).
    pub fn enabled(self, enabled: bool) -> (r: Self)
        ensures
            r == (InterruptLineDefiner { enabled, ..self }),
    {
        InterruptLineDefiner { enabled, ..self }
    }

    /// Complete the configuration of the interrupt line. The line must have
    /// been specified, and a priority may be given to a line only once over
    /// all definers.
    pub fn finish(self, cfg: &mut Cfg) -> (r: InterruptLine)
        requires
            self.line is Some,
            self.priority is Some && line_pos(old(cfg).interrupt_lines@, self.line->0)
                < old(cfg).interrupt_lines@.len() ==> old(cfg).interrupt_lines@[line_pos(
                old(cfg).interrupt_lines@,
                self.line->0,
            )].priority is None,
        ensures
            r.num_spec() == self.line->0,
            final(cfg).interrupt_lines@ == lines_after_define(
                old(cfg).interrupt_lines@,
                self.line->0,
                self.priority,
                self.enabled,
            ),
            final(cfg).same_except_interrupt_lines(*old(cfg)),
    {
        let line_num = match self.line {
            Some(l) => l,
            None => 0,
        };
        proof {
            lemma_line_pos(cfg.interrupt_lines@, line_num);
        }
        let i = find_line(&cfg.interrupt_lines, line_num);
        if i < cfg.interrupt_lines.len() {
            let old_info = cfg.interrupt_lines[i];
            let priority = match self.priority {
                Some(p) => Some(p),
                None => old_info.priority,
            };
            cfg.interrupt_lines.set(
                i,
                CfgInterruptLineInfo {
                    num: line_num,
                    priority,
                    enabled: old_info.enabled || self.enabled,
                },
            );
        } else {
            cfg.interrupt_lines.push(
                CfgInterruptLineInfo { num: line_num, priority: self.priority, enabled: self.enabled },
            );
        }
        InterruptLine::from_num(line_num)
    }
}

/// The definer (static builder) for [`InterruptHandler`].
#[derive(Debug, Clone, Copy, PartialEq, Eq, Structural)]
pub struct InterruptHandlerDefiner {
    pub line: Option<InterruptNum>,
    pub start: Option<EntryFn>,
    pub param: usize,
    pub priority: i32,
    pub unmanaged: bool,
}

/// An interrupt handler registered in a configuration.
#[derive(Debug, Clone, Copy, PartialEq, Eq, Structural)]
pub struct CfgInterruptHandler {
    pub line: InterruptNum,
    pub start: EntryFn,
    pub param: usize,
    pub priority: i32,
    pub unmanaged: bool,
    pub order: usize,
}

impl InterruptHandlerDefiner {
    pub open spec fn initial_spec() -> InterruptHandlerDefiner {
        InterruptHandlerDefiner { line: None, start: None, param: 0, priority: 0, unmanaged: false }
    }

    /// A definer with nothing specified yet.
    pub fn new() -> (r: Self)
        ensures
            r == Self::initial_spec(),
    {
        InterruptHandlerDefiner { line: None, start: None, param: 0, priority: 0, unmanaged: false }
    }

    /// Specify the entry point.
    pub fn start(self, start: EntryFn) -> (r: Self)
        ensures
            r == (InterruptHandlerDefiner { start: Some(start), ..self }),
    {
        InterruptHandlerDefiner { start: Some(start), ..self }
    }

    /// Specify the parameter to the entry point. Defaults to `0`.
    pub fn param(self, param: usize) -> (r: Self)
        ensures
            r == (InterruptHandlerDefiner { param, ..self }),
    {
        InterruptHandlerDefiner { param, ..self }
    }

    /// Specify the interrupt line to attach the handler to. It may be
    /// specified only once.
    pub fn line(self, line: InterruptNum) -> (r: Self)
        requires
            self.line is None,
        ensures
            r == (InterruptHandlerDefiner { line: Some(line), ..self }),
    {
        InterruptHandlerDefiner { line: Some(line), ..self }
    }

    /// Specify the priority. Handlers attached to the same line are called
    /// in ascending order of priority, and those with the same priority in
    /// the order of registration. Defaults to `0`.
    pub fn priority(self, priority: i32) -> (r: Self)
        ensures
            r == (InterruptHandlerDefiner { priority, ..self }),
    {
        InterruptHandlerDefiner { priority, ..self }
    }

    /// Indicate that the handler may be attached to an unmanaged line.
    pub fn unmanaged(self) -> (r: Self)
        ensures
            r == (InterruptHandlerDefiner { unmanaged: true, ..self }),
    {
        InterruptHandlerDefiner { unmanaged: true, ..self }
    }

    /// Complete the registration of the handler. The line and the entry
    /// point must have been specified. The line is registered as well, if it
    /// has not been yet.
    pub fn finish(self, cfg: &mut Cfg) -> (r: InterruptHandler)
        requires
            self.line is Some,
            self.start is Some,
        ensures
            final(cfg).interrupt_lines@ == lines_after_define(
                old(cfg).interrupt_lines@,
                self.line->0,
                None,
                false,
            ),
            final(cfg).interrupt_handlers@ == old(cfg).interrupt_handlers@.push(
                CfgInterruptHandler {
                    line: self.line->0,
                    start: self.start->0,
                    param: self.param,
                    priority: self.priority,
                    unmanaged: self.unmanaged,
                    order: old(cfg).interrupt_handlers@.len() as usize,
                },
            ),
            final(cfg).same_except_interrupts(*old(cfg)),
    {
        let line_num = match self.line {
            Some(l) => l,
            None => 0,
        };
        let start = match self.start {
            Some(s) => s,
            None => 0,
        };
        // Register the line at the same time
        InterruptLine::build().line(line_num).finish(cfg);
        let order = cfg.interrupt_handlers.len();
        cfg.interrupt_handlers.push(
            CfgInterruptHandler {
                line: line_num,
                start,
                param: self.param,
                priority: self.priority,
                unmanaged: self.unmanaged,
                order,
            },
        );
        InterruptHandler::new()
    }
}

impl CfgInterruptLineInfo {
    pub open spec fn is_initially_managed_spec(self, managed: ManagedInterrupts) -> bool {
        match self.priority {
            Some(p) => managed.priority_start <= p < managed.priority_end,
            None => false,
        }
    }

    /// Whether the line's initial priority is within the managed range.
    pub fn is_initially_managed(&self, managed: &ManagedInterrupts) -> (r: bool)
        ensures
            r == self.is_initially_managed_spec(*managed),
    {
        match self.priority {
            Some(p) => p >= managed.priority_start && p < managed.priority_end,
            None => false,
        }
    }
}

/// A line is initially managed exactly when its initial priority is
/// specified and lies in the managed range; a line whose priority is left
/// unspecified is not.
pub proof fn lemma_initially_managed_needs_priority(info: CfgInterruptLineInfo, managed: ManagedInterrupts)
    ensures
        info.is_initially_managed_spec(managed) <==> exists|p: InterruptPriority|
            info.priority == Some(p) && managed.priority_start <= p < managed.priority_end,
        info.priority is None ==> !info.is_initially_managed_spec(managed),
{
    if let Some(p) = info.priority {
        if managed.priority_start <= p < managed.priority_end {
            assert(info.priority == Some(p) && managed.priority_start <= p < managed.priority_end);
        }
    }
}

/// A handler that is not marked `unmanaged`, on a line that the kernel does
/// not always manage and whose configured lines all leave the priority
/// unspecified, is unsafe: the configuration check rejects it.
pub proof fn lemma_unspecified_priority_is_unsafe(
    lines: Seq<CfgInterruptLineInfo>,
    managed: ManagedInterrupts,
    handler: CfgInterruptHandler,
)
    requires
        !handler.unmanaged,
        !managed.lines@.contains(handler.line),
        forall|k: int| 0 <= k < lines.len() && #[trigger] lines[k].num == handler.line ==> lines[k].priority is None,
    ensures
        !handler_is_safe(lines, managed, handler),
{
    assert forall|k: int| 0 <= k < lines.len() && #[trigger] lines[k].num == handler.line implies !lines[k].is_initially_managed_spec(
        managed,
    ) by {
        lemma_initially_managed_needs_priority(lines[k], managed);
    }
}

/// The line of a handler that is not marked `unmanaged` must be a managed
/// line: either one that the kernel always manages, or one whose initial
/// priority is in the managed range.
pub open spec fn handler_is_safe(
    lines: Seq<CfgInterruptLineInfo>,
    managed: ManagedInterrupts,
    handler: CfgInterruptHandler,
) -> bool {
    handler.unmanaged || managed.lines@.contains(handler.line) || exists|k: int|
        0 <= k < lines.len() && #[trigger] lines[k].num == handler.line
            && lines[k].is_initially_managed_spec(managed)
}

/// Check that every handler that is not marked `unmanaged` is attached to a
/// managed line; every handler must be. A configuration is checked without
/// this demand by `Cfg::check_interrupt_safety`.
pub fn panic_if_unmanaged_safety_is_violated(
    interrupt_lines: &Vec<CfgInterruptLineInfo>,
    interrupt_handlers: &Vec<CfgInterruptHandler>,
    managed: &ManagedInterrupts,
)
    requires
        forall|i: int|
            0 <= i < interrupt_handlers@.len() ==> handler_is_safe(
                interrupt_lines@,
                *managed,
                #[trigger] interrupt_handlers@[i],
            ),
{
    let r = find_unsafe_handler(interrupt_lines, interrupt_handlers, managed);
    assert(r is Ok);
}

/// The index of the first handler that is not marked `unmanaged` and is not
/// attached to a managed line, if any.
pub(crate) fn find_unsafe_handler(
    interrupt_lines: &Vec<CfgInterruptLineInfo>,
    interrupt_handlers: &Vec<CfgInterruptHandler>,
    managed: &ManagedInterrupts,
) -> (r: Result<(), usize>)
    ensures
        r is Ok <==> forall|i: int|
            0 <= i < interrupt_handlers@.len() ==> handler_is_safe(
                interrupt_lines@,
                *managed,
                #[trigger] interrupt_handlers@[i],
            ),
        r matches Err(i) ==> i < interrupt_handlers@.len() && !handler_is_safe(
            interrupt_lines@,
            *managed,
            interrupt_handlers@[i as int],
        ) && forall|k: int|
            0 <= k < i ==> handler_is_safe(interrupt_lines@, *managed, #[trigger] interrupt_handlers@[k]),
{
    let mut i: usize = 0;
    while i < interrupt_handlers.len()
        invariant
            i <= interrupt_handlers@.len(),
            forall|k: int|
                0 <= k < i ==> handler_is_safe(interrupt_lines@, *managed, #[trigger] interrupt_handlers@[k]),
        decreases interrupt_handlers@.len() - i,
    {
        let handler = interrupt_handlers[i];
        if !handler.unmanaged {
            // Is the line one that the kernel always manages?
            let mut assumed_managed = false;
            let mut j: usize = 0;
            while j < managed.lines.len()
                invariant
                    j <= managed.lines@.len(),
                    assumed_managed == exists|m: int| 0 <= m < j && managed.lines@[m] == handler.line,
                decreases managed.lines@.len() - j,
            {
                if managed.lines[j] == handler.line {
                    assumed_managed = true;
                }
                j += 1;
            }
            // Is the line's initial priority in the managed range?
            let mut line_managed = false;
            let mut k: usize = 0;
            while k < interrupt_lines.len()
                invariant
                    k <= interrupt_lines@.len(),
                    line_managed == exists|m: int|
                        0 <= m < k && #[trigger] interrupt_lines@[m].num == handler.line
                            && interrupt_lines@[m].is_initially_managed_spec(*managed),
                decreases interrupt_lines@.len() - k,
            {
                if interrupt_lines[k].num == handler.line && interrupt_lines[k].is_initially_managed(
                    managed,
                ) {
                    line_managed = true;
                }
                k += 1;
            }
            if !(assumed_managed || line_managed) {
                return Err(i);
            }
        }
        i += 1;
    }
    Ok(())
}

/// The order in which handlers are called: by line, then by priority, then
/// by the order of registration.
impl SortKey for CfgInterruptHandler {
    open spec fn sort_key(&self) -> int {
        self.line as int * 0x1_0000_0000_0000_0000_0000_0000_0000_0000 + (self.priority as int
            + 0x8000_0000) * 0x1_0000_0000_0000_0000 + self.order as int
    }

    fn key_lt(&self, other: &Self) -> (r: bool) {
        if self.line != other.line {
            self.line < other.line
        } else if self.priority != other.priority {
            self.priority < other.priority
        } else {
            self.order < other.order
        }
    }
}

/// Sort the interrupt handlers by line, then by priority, then by the order
/// of registration.
pub fn sort_handlers(interrupt_handlers: &mut Vec<CfgInterruptHandler>)
    ensures
        final(interrupt_handlers)@.to_multiset() == old(interrupt_handlers)@.to_multiset(),
        crate::utils::is_sorted_by_key(final(interrupt_handlers)@),
{
    sort_unstable_by(interrupt_handlers);
}

/// The number of slots a table indexed by interrupt line needs to hold every
/// line that has a handler.
pub open spec fn required_slots(handlers: Seq<CfgInterruptHandler>) -> int
    decreases handlers.len(),
{
    if handlers.len() == 0 {
        0
    } else {
        let rest = required_slots(handlers.drop_last());
        if handlers.last().line + 1 > rest {
            handlers.last().line + 1
        } else {
            rest
        }
    }
}

/// Calculate the number of slots a table indexed by interrupt line needs to
/// hold every line that has a handler: one more than the largest line.
pub fn num_required_interrupt_line_slots(handlers: &Vec<CfgInterruptHandler>) -> (r: usize)
    requires
        forall|i: int| 0 <= i < handlers@.len() ==> #[trigger] handlers@[i].line < usize::MAX,
    ensures
        r == required_slots(handlers@),
{
    let mut i: usize = 0;
    let mut out: usize = 0;
    while i < handlers.len()
        invariant
            i <= handlers@.len(),
            forall|k: int| 0 <= k < handlers@.len() ==> #[trigger] handlers@[k].line < usize::MAX,
            out == required_slots(handlers@.take(i as int)),
        decreases handlers@.len() - i,
    {
        assert(handlers@.take(i as int + 1).drop_last() =~= handlers@.take(i as int));
        if handlers[i].line + 1 > out {
            out = handlers[i].line + 1;
        }
        i += 1;
    }
    assert(handlers@.take(handlers@.len() as int) =~= handlers@);
    out
}

/// Every handler's line is below the number of required slots.
pub proof fn lemma_required_slots(handlers: Seq<CfgInterruptHandler>)
    ensures
        required_slots(handlers) >= 0,
        forall|i: int| 0 <= i < handlers.len() ==> #[trigger] handlers[i].line < required_slots(handlers),
    decreases handlers.len(),
{
    if handlers.len() > 0 {
        lemma_required_slots(handlers.drop_last());
        assert forall|i: int| 0 <= i < handlers.len() implies #[trigger] handlers[i].line < required_slots(handlers) by {
            if i < handlers.len() - 1 {
                assert(handlers.drop_last()[i] == handlers[i]);
            }
        }
    }
}

/// The handlers are in the order that [`sort_handlers`] establishes.
pub open spec fn sorted_by_line(handlers: Seq<CfgInterruptHandler>) -> bool {
    forall|i: int, j: int| 0 <= i < j < handlers.len() ==> (#[trigger] handlers[i]).line <= (#[trigger] handlers[j]).line
}

/// `i` is the position of the first handler of line `line`.
pub open spec fn is_first_of_line(handlers: Seq<CfgInterruptHandler>, i: int, line: int) -> bool {
    &&& 0 <= i < handlers.len()
    &&& handlers[i].line == line
    &&& (i == 0 || handlers[i - 1].line != line)
}

/// Find the first handler whose line is not below `line` (binary search).
fn lower_bound(handlers: &Vec<CfgInterruptHandler>, line: InterruptNum) -> (r: usize)
    requires
        sorted_by_line(handlers@),
    ensures
        r <= handlers@.len(),
        forall|k: int| 0 <= k < r ==> #[trigger] handlers@[k].line < line,
        forall|k: int| r <= k < handlers@.len() ==> #[trigger] handlers@[k].line >= line,
{
    let mut lo: usize = 0;
    let mut hi: usize = handlers.len();
    while lo < hi
        invariant
            sorted_by_line(handlers@),
            lo <= hi <= handlers@.len(),
            forall|k: int| 0 <= k < lo ==> #[trigger] handlers@[k].line < line,
            forall|k: int| hi <= k < handlers@.len() ==> #[trigger] handlers@[k].line >= line,
        decreases hi - lo,
    {
        let mid = lo + (hi - lo) / 2;
        if handlers[mid].line < line {
            assert forall|k: int| 0 <= k <= mid implies #[trigger] handlers@[k].line < line by {
                if k < mid {
                    assert(handlers@[k].line <= handlers@[mid as int].line);
                }
            }
            lo = mid + 1;
        } else {
            assert forall|k: int| mid <= k < handlers@.len() implies #[trigger] handlers@[k].line >= line by {
                if k > mid {
                    assert(handlers@[mid as int].line <= handlers@[k].line);
                }
            }
            hi = mid;
        }
    }
    lo
}

/// Build the table of combined interrupt handlers, indexed by interrupt line:
/// the entry of a line identifies the line's first handler in the sorted
/// handler list, which the line's combined handler starts from; lines
/// without a handler have no entry.
pub fn new_interrupt_handler_table(handlers: &Vec<CfgInterruptHandler>, num_lines: usize) -> (r: Vec<Option<usize>>)
    requires
        sorted_by_line(handlers@),
        forall|i: int| 0 <= i < handlers@.len() ==> #[trigger] handlers@[i].line < num_lines,
    ensures
        r@.len() == num_lines,
        forall|l: int|
            0 <= l < num_lines ==> match #[trigger] r@[l] {
                Some(i) => is_first_of_line(handlers@, i as int, l),
                None => forall|k: int| 0 <= k < handlers@.len() ==> #[trigger] handlers@[k].line != l,
            },
{
    let mut table: Vec<Option<usize>> = Vec::new();
    let mut line: usize = 0;
    while line < num_lines
        invariant
            sorted_by_line(handlers@),
            line <= num_lines,
            table@.len() == line,
            forall|l: int|
                0 <= l < line ==> match #[trigger] table@[l] {
                    Some(i) => is_first_of_line(handlers@, i as int, l),
                    None => forall|k: int| 0 <= k < handlers@.len() ==> #[trigger] handlers@[k].line != l,
                },
        decreases num_lines - line,
    {
        let i = lower_bound(handlers, line);
        if i >= handlers.len() || handlers[i].line != line {
            table.push(None);
        } else {
            table.push(Some(i));
        }
        line += 1;
    }
    table
}

/// The handlers that the combined handler starting from the handler at
/// `first` calls, in order: `first` and the handlers that follow it on the
/// same line.
pub open spec fn line_handler_range_end(handlers: Seq<CfgInterruptHandler>, first: int, end: int) -> bool {
    &&& first < end <= handlers.len()
    &&& forall|k: int| first <= k < end ==> #[trigger] handlers[k].line == handlers[first].line
    &&& (end == handlers.len() || handlers[end].line != handlers[first].line)
}

/// List the entry points (with their parameters) that the combined handler
/// starting from the handler at `first` calls, in order.
pub fn combined_handler_calls(handlers: &Vec<CfgInterruptHandler>, first: usize) -> (r: Vec<(EntryFn, usize)>)
    requires
        first < handlers@.len(),
    ensures
        exists|end: int|
            line_handler_range_end(handlers@, first as int, end) && r@.len() == end - first && forall|k: int|
                0 <= k < r@.len() ==> #[trigger] r@[k] == (handlers@[first + k].start, handlers@[first + k].param),
{
    let line = handlers[first].line;
    let mut out: Vec<(EntryFn, usize)> = Vec::new();
    let mut i = first;
    loop
        invariant
            first <= i < handlers.len(),
            line == handlers@[first as int].line,
            forall|k: int| first <= k <= i ==> #[trigger] handlers@[k].line == line,
            out@.len() == i - first,
            forall|k: int|
                0 <= k < out@.len() ==> #[trigger] out@[k] == (handlers@[first + k].start, handlers@[first + k].param),
        decreases handlers@.len() - i,
    {
        out.push((handlers[i].start, handlers[i].param));
        let next_i = i + 1;
        if next_i >= handlers.len() || handlers[next_i].line != line {
            assert(line_handler_range_end(handlers@, first as int, next_i as int));
            return out;
        }
        i = next_i;
    }
}

impl crate::bind::ExecutableDefiner for InterruptHandlerDefiner {
    open spec fn start_spec(self, start: crate::closure::Closure) -> Self {
        InterruptHandlerDefiner { start: Some(start.func_spec()), param: start.env_spec().0, ..self }
    }

    fn start_closure(self, start: crate::closure::Closure) -> (r: Self) {
        let (func, env) = start.as_raw_parts();
        InterruptHandlerDefiner { start: Some(func), param: env.0, ..self }
    }
}

} // verus!
