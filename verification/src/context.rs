//! What a tick works on: the record being filled, the inputs and outputs,
//! and the application time.

use crate::io_manager::IoManager;
use crate::log_data::LogData;
use crate::runtime::RuntimeContext;
use crate::span::{span_micros, span_of_micros};
use core::time::Duration;
use vstd::prelude::*;

verus! {

/// What a tick works on.
#[derive(Debug)]
pub struct Context {
    /// The record of the tick.
    pub log_data: LogData,
    /// The inputs and outputs of the application.
    pub io_manager: IoManager,
    /// The application time of the tick.
    pub runtime_context: RuntimeContext,
}

impl Context {
    /// The application time of the current tick, in microseconds.
    pub fn app_time_us(&self) -> (app_time_us: u64)
        ensures
            app_time_us == self.runtime_context@.app_time_us,
    {
        self.runtime_context.app_time_us()
    }

    /// The application time of the current tick, as a span since the start
    /// of the run.
    pub fn time(&self) -> (time: Duration)
        ensures
            time == span_of_micros(self.runtime_context@.app_time_us as u64),
            span_micros(time) == self.runtime_context@.app_time_us,
    {
        self.runtime_context.time()
    }

    /// A copy of the application time, for the blocks to read.
    pub fn get_runtime_context(&self) -> (snapshot: RuntimeContext)
        ensures
            snapshot == self.runtime_context,
    {
        self.runtime_context
    }

    /// Moves on to the tick at `app_time_us`, and touches nothing but the
    /// application time.  Application time does not go back.
    pub fn update_app_time(&mut self, app_time_us: u64)
        requires
            old(self).runtime_context@.app_time_us <= app_time_us,
        ensures
            final(self).runtime_context.wf(),
            final(self).runtime_context@ == old(self).runtime_context@.advanced_to(app_time_us as nat),
            final(self).log_data == old(self).log_data,
            final(self).io_manager == old(self).io_manager,
    {
        self.runtime_context.update_app_time(app_time_us);
    }
}

} // verus!
