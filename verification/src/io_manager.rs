//! What the engine is started from: the settings of the application and
//! the scheduling policy that they ask for.

use crate::error::ConfigurationError;
use crate::timing::{spec_new_timing, RunTime, Timing, TimingModel};
use vstd::prelude::*;

verus! {

/// The run time of a run whose settings name none: ten seconds.
pub const DEFAULT_RUN_TIME_US: u64 = 10_000_000;

/// The tick rate of a run whose settings name none: ten hertz.
pub const DEFAULT_RATE_MILLIHERTZ: i64 = 10_000;

/// The settings of the application, as the configuration source resolved
/// them.  `None` stands for a setting that it does not hold.
#[derive(Debug, Clone, Copy)]
pub struct DiagramParams {
    /// How long the run lasts.
    pub run_time: Option<RunTime>,
    /// The tick rate, in millihertz.
    pub rate_millihertz: Option<i64>,
}

impl DiagramParams {
    /// The run time that the settings ask for.
    pub open spec fn spec_run_time(self) -> RunTime {
        match self.run_time {
            Some(run_time) => run_time,
            None => RunTime::Bounded(DEFAULT_RUN_TIME_US),
        }
    }

    /// The tick rate that the settings ask for, in millihertz.
    pub open spec fn spec_rate_millihertz(self) -> int {
        match self.rate_millihertz {
            Some(rate) => rate as int,
            None => DEFAULT_RATE_MILLIHERTZ as int,
        }
    }
}

/// The inputs and outputs of the application.  This application has none
/// but its log.
#[derive(Debug)]
pub struct IoManager {}

impl IoManager {
    /// The input and output manager of a run, and the scheduling policy that
    /// the settings ask for: paced to the wall clock, with the defaults for
    /// what the settings do not hold.  It fails where [`Timing::new`] fails.
    pub fn new(diagram_params: &DiagramParams) -> (made: Result<
        (IoManager, Timing),
        ConfigurationError,
    >)
        ensures
            match made {
                Ok((_, timing)) => timing.wf() && spec_new_timing(
                    diagram_params.spec_run_time(),
                    diagram_params.spec_rate_millihertz(),
                    true,
                ) == Ok::<TimingModel, ConfigurationError>(timing@),
                Err(error) => spec_new_timing(
                    diagram_params.spec_run_time(),
                    diagram_params.spec_rate_millihertz(),
                    true,
                ) == Err::<TimingModel, ConfigurationError>(error),
            },
    {
        let app_run_time: RunTime = match diagram_params.run_time {
            Some(run_time) => run_time,
            None => RunTime::Bounded(DEFAULT_RUN_TIME_US),
        };
        let app_rate: i64 = match diagram_params.rate_millihertz {
            Some(rate) => rate,
            None => DEFAULT_RATE_MILLIHERTZ,
        };
        let use_realtime = true;
        match Timing::new(app_run_time, app_rate, use_realtime) {
            Ok(timing) => {
                let io_manager = IoManager {  };
                Ok((io_manager, timing))
            },
            Err(error) => Err(error),
        }
    }

    /// Discards the inputs of the tick.  There are none.
    pub fn flush_inputs(&mut self)
        ensures
            *final(self) == *old(self),
    {
    }
}

} // verus!
