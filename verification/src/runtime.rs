//! The application time that the blocks of a tick see.

use crate::span::{span_from_micros, span_micros, span_of_micros};
use core::time::Duration;
use vstd::prelude::*;

verus! {

/// What a [`RuntimeContext`] stands for.
pub struct RuntimeModel {
    /// The tick period that the run aims at, in microseconds.
    pub fundamental_timestep_us: nat,
    /// The application time of the current tick, in microseconds.
    pub app_time_us: nat,
    /// The application time of the tick before, and zero on the first tick.
    pub previous_app_time_us: nat,
}

impl RuntimeModel {
    /// Application time has not gone back, and it is a `u64`.
    pub open spec fn wf(self) -> bool {
        self.previous_app_time_us <= self.app_time_us <= u64::MAX
    }

    /// Microseconds of application time between the tick before and the
    /// current one.
    pub open spec fn elapsed_us(self) -> nat {
        (self.app_time_us - self.previous_app_time_us) as nat
    }

    /// The context of the tick at `app_time_us`, which follows the current
    /// one.
    pub open spec fn advanced_to(self, app_time_us: nat) -> RuntimeModel {
        RuntimeModel { app_time_us, previous_app_time_us: self.app_time_us, ..self }
    }
}

/// The application time of the current tick and of the one before.  Blocks
/// read a copy; only the loop of the run advances the context itself.
#[derive(Debug, Clone, Copy)]
pub struct RuntimeContext {
    fundamental_timestep_us: u64,
    app_time_us: u64,
    previous_app_time_us: u64,
}

impl View for RuntimeContext {
    type V = RuntimeModel;

    closed spec fn view(&self) -> RuntimeModel {
        RuntimeModel {
            fundamental_timestep_us: self.fundamental_timestep_us as nat,
            app_time_us: self.app_time_us as nat,
            previous_app_time_us: self.previous_app_time_us as nat,
        }
    }
}

impl RuntimeContext {
    /// The invariant of a context: see [`RuntimeModel::wf`].
    pub open spec fn wf(&self) -> bool {
        self@.wf()
    }

    /// The context of a first tick, at application time zero.
    pub fn new(fundamental_timestep_us: u64) -> (context: RuntimeContext)
        ensures
            context.wf(),
            context@ == (RuntimeModel {
                fundamental_timestep_us: fundamental_timestep_us as nat,
                app_time_us: 0,
                previous_app_time_us: 0,
            }),
    {
        RuntimeContext { fundamental_timestep_us, app_time_us: 0, previous_app_time_us: 0 }
    }

    /// The application time of the current tick, in microseconds.
    pub fn app_time_us(&self) -> (app_time_us: u64)
        ensures
            app_time_us == self@.app_time_us,
    {
        self.app_time_us
    }

    /// The application time of the current tick, as a span since the start
    /// of the run.
    pub fn time(&self) -> (time: Duration)
        ensures
            time == span_of_micros(self@.app_time_us as u64),
            span_micros(time) == self@.app_time_us,
    {
        span_from_micros(self.app_time_us)
    }

    /// The tick period that the run aims at, in microseconds.
    pub fn fundamental_timestep_us(&self) -> (timestep_us: u64)
        ensures
            timestep_us == self@.fundamental_timestep_us,
    {
        self.fundamental_timestep_us
    }

    /// Microseconds of application time since the tick before; zero on the
    /// first tick.
    pub fn elapsed_us(&self) -> (elapsed_us: u64)
        requires
            self.wf(),
        ensures
            elapsed_us == self@.elapsed_us(),
    {
        self.app_time_us - self.previous_app_time_us
    }

    /// Moves on to the tick at `app_time_us`.  Application time does not go
    /// back.
    pub fn update_app_time(&mut self, app_time_us: u64)
        requires
            old(self)@.app_time_us <= app_time_us,
        ensures
            final(self).wf(),
            final(self)@ == old(self)@.advanced_to(app_time_us as nat),
    {
        self.previous_app_time_us = self.app_time_us;
        self.app_time_us = app_time_us;
    }
}

} // verus!
