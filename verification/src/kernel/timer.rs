//! Timers.
use vstd::prelude::*;

use super::cfg::Cfg;
use super::raw_cfg::{CfgTimer, TimerDescriptor};
use crate::bind::ExecutableDefiner;
use crate::closure::{Closure, IntoClosureConst};
use crate::time::Duration;

verus! {

/// A reference to a timer defined in a configuration.
#[derive(Debug, Clone, Copy, PartialEq, Eq, Structural)]
pub struct TimerRef {
    pub id: usize,
}

/// A timer defined in a configuration.
pub type StaticTimer = TimerRef;

impl TimerRef {
    /// Construct a `TimerDefiner` to define a timer in a configuration
    /// function.
    pub fn define() -> (r: TimerDefiner)
        ensures
            r == TimerDefiner::initial_spec(),
    {
        TimerDefiner::new()
    }
}

/// The definer (static builder) for [`TimerRef`].
#[derive(Debug, Clone, Copy, PartialEq, Eq, Structural)]
pub struct TimerDefiner {
    pub start: Option<Closure>,
    pub delay: Option<Duration>,
    pub period: Option<Duration>,
    pub active: bool,
}

impl TimerDefiner {
    pub open spec fn initial_spec() -> TimerDefiner {
        TimerDefiner { start: None, delay: None, period: None, active: false }
    }

    fn new() -> (r: Self)
        ensures
            r == Self::initial_spec(),
    {
        TimerDefiner { start: None, delay: None, period: None, active: false }
    }

    /// Specify the callback function.
    pub fn start<C: IntoClosureConst>(self, start: C) -> (r: Self)
        ensures
            r.start == Some(start.closure_spec()),
            r.delay == self.delay,
            r.period == self.period,
            r.active == self.active,
    {
        TimerDefiner { start: Some(start.into_closure_const()), ..self }
    }

    /// Specify whether the timer should be started at system startup.
    /// Defaults to `false` (don't activate).
    pub fn active(self, active: bool) -> (r: Self)
        ensures
            r == (TimerDefiner { active, ..self }),
    {
        TimerDefiner { active, ..self }
    }

    /// Specify the initial delay. Defaults to none (the timer does not fire
    /// until a delay is set).
    pub fn delay(self, delay: Duration) -> (r: Self)
        ensures
            r == (TimerDefiner { delay: Some(delay), ..self }),
    {
        TimerDefiner { delay: Some(delay), ..self }
    }

    /// Specify the initial period. Defaults to none (the timer fires once).
    pub fn period(self, period: Duration) -> (r: Self)
        ensures
            r == (TimerDefiner { period: Some(period), ..self }),
    {
        TimerDefiner { period: Some(period), ..self }
    }

    /// Complete the definition of the timer. The callback must have been
    /// specified.
    pub fn finish(self, cfg: &mut Cfg) -> (r: TimerRef)
        requires
            self.start is Some,
        ensures
            r.id == old(cfg).raw.timers@.len(),
            final(cfg).raw.timers@ == old(cfg).raw.timers@.push(
                TimerDescriptor { start: self.start->0, active: self.active, delay: self.delay, period: self.period },
            ),
            final(cfg).raw.same_settings(old(cfg).raw),
            final(cfg).raw.same_objects_except(old(cfg).raw, false, false, false, false, true, false),
            final(cfg).same_except_raw(*old(cfg)),
    {
        let start = match self.start {
            Some(c) => c,
            None => Closure::from_raw_parts(0, crate::closure::ClosureEnv(0)),
        };
        let id = cfg.raw.timer_define(
            TimerDescriptor { start, active: self.active, delay: self.delay, period: self.period },
        );
        TimerRef { id }
    }
}

impl ExecutableDefiner for TimerDefiner {
    open spec fn start_spec(self, start: Closure) -> Self {
        TimerDefiner { start: Some(start), ..self }
    }

    fn start_closure(self, start: Closure) -> (r: Self) {
        TimerDefiner { start: Some(start), ..self }
    }
}

} // verus!
