//! Tasks.
use vstd::prelude::*;

use super::cfg::Cfg;
use super::error::{UnparkError, UnparkExactError};
use super::hunk::Hunk;
use super::raw::EntryFn;
use super::raw_cfg::{CfgTask, TaskDescriptor};
use crate::bind::ExecutableDefiner;
use crate::closure::Closure;

verus! {

/// A reference to a task defined in a configuration.
#[derive(Debug, Clone, Copy, PartialEq, Eq, Structural)]
pub struct TaskRef {
    pub id: usize,
}

impl TaskRef {
    /// Construct a `TaskDefiner` to define a task in a configuration
    /// function.
    pub fn define() -> (r: TaskDefiner)
        ensures
            r == TaskDefiner::initial_spec(),
    {
        TaskDefiner::new()
    }

    /// The outcome of unparking the task, given the outcome of the exact
    /// unpark operation: an overflowing park token counts as success.
    pub fn unpark(exact: Result<(), UnparkExactError>) -> (r: Result<(), UnparkError>)
        ensures
            r == match exact {
                Ok(()) => Ok(()),
                Err(UnparkExactError::QueueOverflow) => Ok(()),
                Err(UnparkExactError::BadContext) => Err(UnparkError::BadContext),
                Err(UnparkExactError::NoAccess) => Err(UnparkError::NoAccess),
                Err(UnparkExactError::BadObjectState) => Err(UnparkError::BadObjectState),
            },
    {
        match exact {
            Ok(()) | Err(UnparkExactError::QueueOverflow) => Ok(()),
            Err(UnparkExactError::BadContext) => Err(UnparkError::BadContext),
            Err(UnparkExactError::NoAccess) => Err(UnparkError::NoAccess),
            Err(UnparkExactError::BadObjectState) => Err(UnparkError::BadObjectState),
        }
    }
}

/// The definer (static builder) for [`TaskRef`].
#[derive(Debug, Clone, Copy, PartialEq, Eq, Structural)]
pub struct TaskDefiner {
    pub start: Option<EntryFn>,
    pub param: usize,
    pub stack_size: Option<usize>,
    pub priority: Option<usize>,
    pub active: bool,
}

impl TaskDefiner {
    pub open spec fn initial_spec() -> TaskDefiner {
        TaskDefiner { start: None, param: 0, stack_size: None, priority: None, active: false }
    }

    fn new() -> (r: Self)
        ensures
            r == Self::initial_spec(),
    {
        TaskDefiner { start: None, param: 0, stack_size: None, priority: None, active: false }
    }

    /// Specify the task's entry point.
    pub fn start(self, start: EntryFn) -> (r: Self)
        ensures
            r == (TaskDefiner { start: Some(start), ..self }),
    {
        TaskDefiner { start: Some(start), ..self }
    }

    /// Specify the parameter to the entry point. Defaults to `0`.
    pub fn param(self, param: usize) -> (r: Self)
        ensures
            r == (TaskDefiner { param, ..self }),
    {
        TaskDefiner { param, ..self }
    }

    /// Specify the task's stack size. It may be specified only once.
    pub fn stack_size(self, stack_size: usize) -> (r: Self)
        requires
            self.stack_size is None,
        ensures
            r == (TaskDefiner { stack_size: Some(stack_size), ..self }),
    {
        TaskDefiner { stack_size: Some(stack_size), ..self }
    }

    /// Specify the task's initial base priority.
    pub fn priority(self, priority: usize) -> (r: Self)
        ensures
            r == (TaskDefiner { priority: Some(priority), ..self }),
    {
        TaskDefiner { priority: Some(priority), ..self }
    }

    /// Specify whether the task should be activated at system startup.
    /// Defaults to `false` (don't activate).
    pub fn active(self, active: bool) -> (r: Self)
        ensures
            r == (TaskDefiner { active, ..self }),
    {
        TaskDefiner { active, ..self }
    }

    /// Complete the definition of the task. The entry point and the priority
    /// must have been specified.
    pub fn finish(self, cfg: &mut Cfg) -> (r: TaskRef)
        requires
            self.start is Some,
            self.priority is Some,
        ensures
            r.id == old(cfg).raw.tasks@.len(),
            final(cfg).raw.tasks@ == old(cfg).raw.tasks@.push(
                TaskDescriptor {
                    start: self.start->0,
                    param: self.param,
                    active: self.active,
                    priority: self.priority->0,
                    stack_size: self.stack_size,
                },
            ),
            final(cfg).raw.same_settings(old(cfg).raw),
            final(cfg).raw.same_objects_except(old(cfg).raw, true, false, false, false, false, false),
            final(cfg).same_except_raw(*old(cfg)),
    {
        let start = match self.start {
            Some(s) => s,
            None => 0,
        };
        let priority = match self.priority {
            Some(p) => p,
            None => 0,
        };
        let id = cfg.raw.task_define(
            TaskDescriptor { start, param: self.param, active: self.active, priority, stack_size: self.stack_size },
        );
        TaskRef { id }
    }
}

impl ExecutableDefiner for TaskDefiner {
    open spec fn start_spec(self, start: Closure) -> Self {
        TaskDefiner { start: Some(start.func_spec()), param: start.env_spec().0, ..self }
    }

    fn start_closure(self, start: Closure) -> (r: Self) {
        let (func, env) = start.as_raw_parts();
        TaskDefiner { start: Some(func), param: env.0, ..self }
    }
}

/// A hunk that serves as a task's stack.
#[derive(Debug, Clone, Copy, PartialEq, Eq, Structural)]
pub struct StackHunk(pub Hunk);

impl StackHunk {
    /// Use `hunk` as a task's stack.
    pub fn new(hunk: Hunk) -> (r: Self)
        ensures
            r.0 == hunk,
    {
        StackHunk(hunk)
    }

    /// The underlying hunk.
    pub fn hunk(self) -> (r: Hunk)
        ensures
            r == self.0,
    {
        self.0
    }
}

} // verus!
