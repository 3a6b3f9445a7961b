//! Wait queues: the tasks waiting on a kernel object, in the order in which
//! they will be woken up.
use vstd::prelude::*;

use super::error::{BadObjectStateError, WaitError, WaitTimeoutError};
use super::raw::{EventGroupBits, EventGroupWaitFlags, QueueOrder};

verus! {

/// Additional information about what a task is waiting for.
#[derive(Debug, Clone, Copy, PartialEq, Eq, Structural)]
pub enum WaitPayload {
    EventGroupBits { bits: EventGroupBits, flags: EventGroupWaitFlags, orig_bits: EventGroupBits },
    Semaphore,
    /// The identifier of the mutex.
    Mutex(usize),
    Park,
    Sleep,
}

impl WaitPayload {
    /// Move the payload into a new wait object.
    pub fn move_payload(self) -> (r: Self)
        ensures
            r == self,
    {
        match self {
            WaitPayload::EventGroupBits { bits, flags, orig_bits } => WaitPayload::EventGroupBits {
                bits,
                flags,
                orig_bits,
            },
            WaitPayload::Semaphore => WaitPayload::Semaphore,
            WaitPayload::Mutex(x) => WaitPayload::Mutex(x),
            WaitPayload::Park => WaitPayload::Park,
            WaitPayload::Sleep => WaitPayload::Sleep,
        }
    }
}

/// A wait operation of a task: the task, its effective priority (a smaller
/// value means a higher priority), and what it waits for.
#[derive(Debug, Clone, Copy, PartialEq, Eq, Structural)]
pub struct Wait {
    pub task: usize,
    pub priority: usize,
    pub payload: WaitPayload,
}

/// A queue of wait operations.
pub struct WaitQueue {
    waits: Vec<Wait>,
    order: QueueOrder,
}

/// The waits are in ascending order of priority value.
pub open spec fn sorted_by_priority(waits: Seq<Wait>) -> bool {
    forall|i: int, j: int| 0 <= i < j < waits.len() ==> (#[trigger] waits[i]).priority <= (#[trigger] waits[j]).priority
}

/// The position at which a wait with priority `pri` is inserted: after every
/// wait except the trailing ones whose priority value is greater.
pub open spec fn priority_insertion_pos(waits: Seq<Wait>, pri: usize) -> int
    decreases waits.len(),
{
    if waits.len() == 0 {
        0
    } else if waits.last().priority > pri {
        priority_insertion_pos(waits.drop_last(), pri)
    } else {
        waits.len() as int
    }
}

/// The waits of `waits` for which `sel` is `keep`, in order.
pub open spec fn select(waits: Seq<Wait>, sel: Seq<bool>, keep: bool) -> Seq<Wait>
    decreases waits.len(),
{
    if waits.len() == 0 || sel.len() != waits.len() {
        Seq::empty()
    } else {
        let rest = select(waits.drop_last(), sel.drop_last(), keep);
        if sel.last() == keep {
            rest.push(waits.last())
        } else {
            rest
        }
    }
}

proof fn lemma_insertion_pos(waits: Seq<Wait>, pri: usize)
    ensures
        0 <= priority_insertion_pos(waits, pri) <= waits.len(),
        forall|k: int|
            priority_insertion_pos(waits, pri) <= k < waits.len() ==> #[trigger] waits[k].priority > pri,
        priority_insertion_pos(waits, pri) > 0 ==> waits[priority_insertion_pos(waits, pri) - 1].priority <= pri,
    decreases waits.len(),
{
    if waits.len() > 0 && waits.last().priority > pri {
        lemma_insertion_pos(waits.drop_last(), pri);
        assert forall|k: int| priority_insertion_pos(waits, pri) <= k < waits.len() implies #[trigger] waits[k].priority > pri by {
            if k < waits.len() - 1 {
                assert(waits.drop_last()[k] == waits[k]);
            }
        }
        if priority_insertion_pos(waits, pri) > 0 {
            assert(waits.drop_last()[priority_insertion_pos(waits, pri) - 1] == waits[priority_insertion_pos(waits, pri) - 1]);
        }
    }
}

/// Inserting at the priority insertion position keeps a sorted queue
/// sorted, and places the new wait after every wait of a higher or the same
/// priority (so waits of the same priority are woken up in FIFO order) and
/// before every wait of a lower priority.
pub proof fn lemma_priority_insert_sorted(waits: Seq<Wait>, w: Wait)
    requires
        sorted_by_priority(waits),
    ensures
        sorted_by_priority(waits.insert(priority_insertion_pos(waits, w.priority), w)),
        forall|k: int|
            0 <= k < priority_insertion_pos(waits, w.priority) ==> #[trigger] waits[k].priority <= w.priority,
        forall|k: int|
            priority_insertion_pos(waits, w.priority) <= k < waits.len() ==> #[trigger] waits[k].priority
                > w.priority,
{
    lemma_insertion_pos(waits, w.priority);
    let p = priority_insertion_pos(waits, w.priority);
    let s = waits.insert(p, w);
    assert forall|k: int| 0 <= k < p implies #[trigger] waits[k].priority <= w.priority by {
        if k < p - 1 {
            assert(waits[k].priority <= waits[p - 1].priority);
        }
    }
    assert forall|i: int, j: int| 0 <= i < j < s.len() implies (#[trigger] s[i]).priority <= (#[trigger] s[j]).priority by {
        if j < p {
            assert(s[i] == waits[i] && s[j] == waits[j]);
        } else if j == p {
            assert(s[i] == waits[i]);
        } else if i == p {
            assert(s[j] == waits[j - 1]);
        } else if i < p {
            assert(s[i] == waits[i] && s[j] == waits[j - 1]);
        } else {
            assert(s[i] == waits[i - 1] && s[j] == waits[j - 1]);
        }
    }
}

impl WaitQueue {
    pub closed spec fn waits_spec(&self) -> Seq<Wait> {
        self.waits@
    }

    pub closed spec fn order_spec(&self) -> QueueOrder {
        self.order
    }

    /// A queue ordered by task priority is sorted by priority.
    pub open spec fn wf(&self) -> bool {
        self.order_spec() == QueueOrder::TaskPriority ==> sorted_by_priority(self.waits_spec())
    }

    /// Construct an empty wait queue.
    pub fn new(order: QueueOrder) -> (r: Self)
        ensures
            r.wf(),
            r.waits_spec() == Seq::<Wait>::empty(),
            r.order_spec() == order,
    {
        WaitQueue { waits: Vec::new(), order }
    }

    /// The position at which a wait with priority `cur_task_pri` would be
    /// inserted: before the trailing waits with a greater priority value, or
    /// at the end (`None`) if there is none.
    pub fn find_insertion_position_by_task_priority(&self, cur_task_pri: usize) -> (r: Option<usize>)
        ensures
            match r {
                Some(i) => i == priority_insertion_pos(self.waits_spec(), cur_task_pri) && i
                    < self.waits_spec().len(),
                None => priority_insertion_pos(self.waits_spec(), cur_task_pri) == self.waits_spec().len(),
            },
    {
        proof {
            lemma_insertion_pos(self.waits@, cur_task_pri);
        }
        let mut insert_at: Option<usize> = None;
        let mut cursor = self.waits.len();
        assert(self.waits@.take(cursor as int) =~= self.waits@);
        while cursor > 0 && self.waits[cursor - 1].priority > cur_task_pri
            invariant
                cursor <= self.waits@.len(),
                priority_insertion_pos(self.waits@, cur_task_pri) == priority_insertion_pos(
                    self.waits@.take(cursor as int),
                    cur_task_pri,
                ),
                match insert_at {
                    Some(i) => i == cursor && cursor < self.waits@.len(),
                    None => cursor == self.waits@.len(),
                },
            decreases cursor,
        {
            assert(self.waits@.take(cursor as int).drop_last() =~= self.waits@.take(cursor - 1));
            insert_at = Some(cursor - 1);
            cursor = cursor - 1;
        }
        proof {
            if cursor > 0 {
                assert(self.waits@.take(cursor as int).last() == self.waits@[cursor - 1]);
            }
        }
        insert_at
    }

    /// Enqueue a wait operation: at the end of a FIFO queue, or, in a queue
    /// ordered by task priority, after every wait whose priority value is not
    /// greater.
    pub fn wait(&mut self, task: usize, priority: usize, payload: WaitPayload)
        requires
            old(self).wf(),
        ensures
            final(self).wf(),
            final(self).order_spec() == old(self).order_spec(),
            final(self).waits_spec() == if old(self).order_spec() == QueueOrder::Fifo {
                old(self).waits_spec().push(Wait { task, priority, payload })
            } else {
                old(self).waits_spec().insert(
                    priority_insertion_pos(old(self).waits_spec(), priority),
                    Wait { task, priority, payload },
                )
            },
    {
        let w = Wait { task, priority, payload: payload.move_payload() };
        self.insert_wait(w);
    }

    /// Enqueue a wait operation that is bounded by a timeout. The queue is
    /// updated exactly as by [`Self::wait`]; when the timeout expires, the
    /// wait is removed by [`Self::interrupt_task`].
    pub fn wait_timeout(&mut self, task: usize, priority: usize, payload: WaitPayload)
        requires
            old(self).wf(),
        ensures
            final(self).wf(),
            final(self).order_spec() == old(self).order_spec(),
            final(self).waits_spec() == if old(self).order_spec() == QueueOrder::Fifo {
                old(self).waits_spec().push(Wait { task, priority, payload })
            } else {
                old(self).waits_spec().insert(
                    priority_insertion_pos(old(self).waits_spec(), priority),
                    Wait { task, priority, payload },
                )
            },
    {
        self.wait(task, priority, payload);
    }

    fn insert_wait(&mut self, w: Wait)
        requires
            old(self).wf(),
        ensures
            final(self).wf(),
            final(self).order_spec() == old(self).order_spec(),
            final(self).waits_spec() == if old(self).order_spec() == QueueOrder::Fifo {
                old(self).waits_spec().push(w)
            } else {
                old(self).waits_spec().insert(priority_insertion_pos(old(self).waits_spec(), w.priority), w)
            },
    {
        match self.order {
            QueueOrder::Fifo => {
                self.waits.push(w);
            },
            QueueOrder::TaskPriority => {
                proof {
                    lemma_priority_insert_sorted(self.waits@, w);
                }
                let pos = match self.find_insertion_position_by_task_priority(w.priority) {
                    Some(i) => i,
                    None => self.waits.len(),
                };
                self.waits.insert(pos, w);
            },
        }
    }

    /// The position of the wait of `task`, if any.
    fn position_of_task(&self, task: usize) -> (r: Option<usize>)
        ensures
            match r {
                Some(i) => i < self.waits_spec().len() && self.waits_spec()[i as int].task == task && forall|k: int|
                    0 <= k < i ==> #[trigger] self.waits_spec()[k].task != task,
                None => forall|k: int| 0 <= k < self.waits_spec().len() ==> #[trigger] self.waits_spec()[k].task != task,
            },
    {
        let mut i: usize = 0;
        while i < self.waits.len()
            invariant
                i <= self.waits@.len(),
                forall|k: int| 0 <= k < i ==> #[trigger] self.waits@[k].task != task,
            decreases self.waits@.len() - i,
        {
            if self.waits[i].task == task {
                return Some(i);
            }
            i += 1;
        }
        None
    }

    /// Reposition the wait of `task` after its effective priority changed to
    /// `new_priority`. Nothing changes in a FIFO queue or if the task does
    /// not wait in this queue.
    pub fn reorder_wait(&mut self, task: usize, new_priority: usize)
        requires
            old(self).wf(),
        ensures
            final(self).wf(),
            final(self).order_spec() == old(self).order_spec(),
            old(self).order_spec() == QueueOrder::Fifo ==> final(self).waits_spec() == old(self).waits_spec(),
            old(self).order_spec() == QueueOrder::TaskPriority ==> (forall|k: int|
                0 <= k < old(self).waits_spec().len() ==> #[trigger] old(self).waits_spec()[k].task != task)
                ==> final(self).waits_spec() == old(self).waits_spec(),
            old(self).order_spec() == QueueOrder::TaskPriority ==> forall|i: int|
                0 <= i < old(self).waits_spec().len() && old(self).waits_spec()[i].task == task && (forall|k: int|
                    0 <= k < i ==> #[trigger] old(self).waits_spec()[k].task != task) ==> {
                    let rest = old(self).waits_spec().remove(i);
                    let w = Wait { priority: new_priority, ..old(self).waits_spec()[i] };
                    final(self).waits_spec() == rest.insert(priority_insertion_pos(rest, new_priority), w)
                },
    {
        match self.order {
            QueueOrder::Fifo => {
                return ;
            },
            QueueOrder::TaskPriority => {},
        }
        match self.position_of_task(task) {
            None => {},
            Some(i) => {
                let ghost old_waits = self.waits@;
                let w = self.waits.remove(i);
                proof {
                    assert forall|a: int, b: int| 0 <= a < b < self.waits@.len() implies (#[trigger] self.waits@[a]).priority
                        <= (#[trigger] self.waits@[b]).priority by {
                        let a0 = if a < i { a } else { a + 1 };
                        let b0 = if b < i { b } else { b + 1 };
                        assert(self.waits@[a] == old_waits[a0]);
                        assert(self.waits@[b] == old_waits[b0]);
                    }
                }
                self.insert_wait(Wait { priority: new_priority, ..w });
            },
        }
    }

    /// The task of the first wait, if any.
    pub fn first_waiting_task(&self) -> (r: Option<usize>)
        ensures
            r == if self.waits_spec().len() == 0 {
                None::<usize>
            } else {
                Some(self.waits_spec()[0].task)
            },
    {
        if self.waits.len() == 0 {
            None
        } else {
            Some(self.waits[0].task)
        }
    }

    /// Wake up the first waiting task, if any: its wait is removed from the
    /// queue and handed back, and completes successfully.
    pub fn wake_up_one(&mut self) -> (r: Option<Wait>)
        requires
            old(self).wf(),
        ensures
            final(self).wf(),
            final(self).order_spec() == old(self).order_spec(),
            old(self).waits_spec().len() == 0 ==> r is None && final(self).waits_spec() == old(self).waits_spec(),
            old(self).waits_spec().len() > 0 ==> r == Some(old(self).waits_spec()[0])
                && final(self).waits_spec() == old(self).waits_spec().drop_first(),
    {
        if self.waits.len() == 0 {
            None
        } else {
            let ghost old_waits = self.waits@;
            let w = self.waits.remove(0);
            proof {
                assert(self.waits@ =~= old_waits.drop_first());
                if self.order == QueueOrder::TaskPriority {
                assert forall|a: int, b: int| 0 <= a < b < self.waits@.len() implies (#[trigger] self.waits@[a]).priority
                    <= (#[trigger] self.waits@[b]).priority by {
                    assert(self.waits@[a] == old_waits[a + 1]);
                    assert(self.waits@[b] == old_waits[b + 1]);
                }
                }
            }
            Some(w)
        }
    }

    /// Wake up every waiting task whose payload satisfies `cond`, in queue
    /// order. Their waits are removed and handed back; the other waits stay
    /// in their order.
    pub fn wake_up_all_conditional<F: Fn(&WaitPayload) -> bool>(&mut self, cond: F) -> (r: Vec<Wait>)
        requires
            old(self).wf(),
            forall|p: WaitPayload| cond.requires((&p,)),
        ensures
            final(self).wf(),
            final(self).order_spec() == old(self).order_spec(),
            exists|sel: Seq<bool>|
                #![trigger select(old(self).waits_spec(), sel, true)]
                sel.len() == old(self).waits_spec().len() && (forall|i: int|
                    0 <= i < sel.len() ==> cond.ensures((&old(self).waits_spec()[i].payload,), #[trigger] sel[i]))
                    && r@ == select(old(self).waits_spec(), sel, true) && final(self).waits_spec() == select(
                    old(self).waits_spec(),
                    sel,
                    false,
                ),
    {
        let ghost old_waits = self.waits@;
        let mut kept: Vec<Wait> = Vec::new();
        let mut woken: Vec<Wait> = Vec::new();
        let ghost mut sel: Seq<bool> = Seq::empty();
        let ghost mut kept_idx: Seq<int> = Seq::empty();
        let mut i: usize = 0;
        while i < self.waits.len()
            invariant
                self.waits@ == old_waits,
                forall|p: WaitPayload| cond.requires((&p,)),
                i <= old_waits.len(),
                sel.len() == i,
                forall|k: int| 0 <= k < i ==> cond.ensures((&old_waits[k].payload,), #[trigger] sel[k]),
                kept@ == select(old_waits.take(i as int), sel, false),
                woken@ == select(old_waits.take(i as int), sel, true),
                kept_idx.len() == kept@.len(),
                forall|a: int| 0 <= a < kept_idx.len() ==> 0 <= #[trigger] kept_idx[a] < i,
                forall|a: int| 0 <= a < kept_idx.len() ==> #[trigger] kept@[a] == old_waits[kept_idx[a]],
                forall|a: int, b: int| 0 <= a < b < kept_idx.len() ==> #[trigger] kept_idx[a] < #[trigger] kept_idx[b],
            decreases old_waits.len() - i,
        {
            let w = self.waits[i];
            let c = cond(&w.payload);
            proof {
                let old_sel = sel;
                sel = sel.push(c);
                assert(old_waits.take(i as int + 1).drop_last() =~= old_waits.take(i as int));
                assert(sel.drop_last() =~= old_sel);
                assert(old_waits.take(i as int + 1).last() == w);
            }
            if c {
                woken.push(w);
            } else {
                proof {
                    kept_idx = kept_idx.push(i as int);
                }
                kept.push(w);
            }
            i += 1;
        }
        proof {
            assert(old_waits.take(old_waits.len() as int) =~= old_waits);
            if self.order == QueueOrder::TaskPriority {
                assert forall|a: int, b: int| 0 <= a < b < kept@.len() implies (#[trigger] kept@[a]).priority
                    <= (#[trigger] kept@[b]).priority by {
                    assert(kept_idx[a] < kept_idx[b]);
                    assert(old_waits[kept_idx[a]].priority <= old_waits[kept_idx[b]].priority);
                }
            }
        }
        self.waits = kept;
        assert(sel.len() == old_waits.len() && (forall|i: int|
            0 <= i < sel.len() ==> cond.ensures((&old_waits[i].payload,), #[trigger] sel[i]))
            && woken@ == select(old_waits, sel, true) && self.waits@ == select(old_waits, sel, false));
        assert(old(self).waits_spec() == old_waits);
        assert(woken@ == select(old(self).waits_spec(), sel, true));
        woken
    }

    /// Remove the wait of `task` (the first one, if several), for example
    /// because the task was interrupted or its wait timed out. Fails if the
    /// task does not wait in this queue.
    pub fn interrupt_task(&mut self, task: usize) -> (r: Result<Wait, BadObjectStateError>)
        requires
            old(self).wf(),
        ensures
            final(self).wf(),
            final(self).order_spec() == old(self).order_spec(),
            r is Err <==> forall|k: int| 0 <= k < old(self).waits_spec().len() ==> #[trigger] old(self).waits_spec()[k].task != task,
            r is Err ==> final(self).waits_spec() == old(self).waits_spec(),
            r matches Ok(w) ==> exists|i: int|
                0 <= i < old(self).waits_spec().len() && old(self).waits_spec()[i] == w && w.task == task
                    && (forall|k: int| 0 <= k < i ==> #[trigger] old(self).waits_spec()[k].task != task)
                    && final(self).waits_spec() == old(self).waits_spec().remove(i),
    {
        match self.position_of_task(task) {
            None => Err(BadObjectStateError::BadObjectState),
            Some(i) => {
                let ghost old_waits = self.waits@;
                let w = self.waits.remove(i);
                proof {
                    if self.order == QueueOrder::TaskPriority {
                    assert forall|a: int, b: int| 0 <= a < b < self.waits@.len() implies (#[trigger] self.waits@[a]).priority
                        <= (#[trigger] self.waits@[b]).priority by {
                        let a0 = if a < i { a } else { a + 1 };
                        let b0 = if b < i { b } else { b + 1 };
                        assert(self.waits@[a] == old_waits[a0]);
                        assert(self.waits@[b] == old_waits[b0]);
                    }
                    }
                    assert(old_waits[i as int] == w);
                }
                Ok(w)
            },
        }
    }
}

/// The outcome of a wait that cannot time out, given the outcome of the
/// underlying wait.
pub fn wait_result(r: Result<(), WaitTimeoutError>) -> (out: Result<(), WaitError>)
    requires
        r != Err::<(), WaitTimeoutError>(WaitTimeoutError::Timeout),
    ensures
        out is Ok <==> r is Ok,
        out matches Err(e) ==> r matches Err(e0) && e.result_code_spec() == e0.result_code_spec(),
{
    match r {
        Ok(()) => Ok(()),
        Err(e) => Err(e.expect_not_timeout()),
    }
}

} // verus!
