//! One tick of the application: run the active state, complete the record
//! of the tick and let the logger decide whether it is flushed.

use crate::context::Context;
use crate::log_data::LogData;
use crate::logger::{DataLogger, LoggerModel};
use crate::rate::{period_us, spec_period_us};
use crate::runtime::RuntimeModel;
use crate::state::{spec_staged, BlockOutputs, Main66979State, State, StateManager, StateModel};
use vstd::prelude::*;

verus! {

/// The settings of the environment that the engine reads.  Where the sink
/// of the log writes to is the business of whoever owns the sink.
#[derive(Debug, Clone, Copy)]
pub struct PictorusVars {
    /// How often a record is flushed, in millihertz.  A rate that is not
    /// positive flushes every record.
    pub data_log_rate_millihertz: i64,
}

/// What an [`AppInterface`] stands for.
pub struct AppModel {
    /// The state that is active.
    pub current_state: State,
    /// The main state.
    pub main66979_state: StateModel,
    /// The logger.
    pub logger: LoggerModel,
    /// The record of the last tick that ran.
    pub log_data: LogData,
    /// The application time.
    pub runtime: RuntimeModel,
}

impl AppModel {
    /// Application time has not gone back, neither for the context nor for
    /// the states.
    pub open spec fn wf(self) -> bool {
        &&& self.runtime.wf()
        &&& self.main66979_state.seen_by(self.runtime.app_time_us)
    }

    /// The name of the active state in the record.
    pub open spec fn state_id(self) -> &'static str {
        match self.current_state {
            State::Main66979State => "main66979_state",
        }
    }

    /// The record of the tick that runs now and in which the blocks put out
    /// `outputs`.
    pub open spec fn record(self, outputs: BlockOutputs) -> LogData {
        LogData {
            state_id: Some(self.state_id()),
            timestamp: Some(self.runtime.app_time_us as u64),
            app_time_us: Some(self.runtime.app_time_us as u64),
            ..spec_staged(self.log_data, outputs)
        }
    }

    /// What the tick that runs now hands to the sink: its record if the
    /// logger flushes it, else nothing.
    pub open spec fn flushed(self, outputs: BlockOutputs) -> Option<LogData> {
        if self.logger.flushes_at(self.runtime.app_time_us) {
            Some(self.record(outputs))
        } else {
            None
        }
    }

    /// The application after the tick that runs now.
    pub open spec fn after_update(self, outputs: BlockOutputs) -> AppModel {
        AppModel {
            main66979_state: StateModel { last_time_us: Some(self.runtime.app_time_us) },
            logger: self.logger.after(self.runtime.app_time_us),
            log_data: self.record(outputs),
            ..self
        }
    }

    /// The application when its time has moved on to `app_time_us`.
    pub open spec fn advanced_to(self, app_time_us: nat) -> AppModel {
        AppModel { runtime: self.runtime.advanced_to(app_time_us), ..self }
    }
}

/// The application: its states, its logger and the context of the tick.
#[derive(Debug)]
pub struct AppInterface {
    state_manager: StateManager,
    data_logger: DataLogger,
    context: Context,
}

impl View for AppInterface {
    type V = AppModel;

    closed spec fn view(&self) -> AppModel {
        AppModel {
            current_state: self.state_manager.current_state,
            main66979_state: self.state_manager.main66979_state@,
            logger: self.data_logger@,
            log_data: self.context.log_data,
            runtime: self.context.runtime_context@,
        }
    }
}

impl AppInterface {
    /// The invariant of an application: see [`AppModel::wf`].
    pub open spec fn wf(&self) -> bool {
        self@.wf()
    }

    /// The application before its first tick, in its main state, with a
    /// logger whose period is that of the data log rate.
    pub fn new(context: Context, pictorus_vars: &PictorusVars) -> (app: AppInterface)
        requires
            context.runtime_context.wf(),
        ensures
            app.wf(),
            app@ == (AppModel {
                current_state: State::Main66979State,
                main66979_state: StateModel { last_time_us: None },
                logger: LoggerModel {
                    log_period_us: spec_period_us(pictorus_vars.data_log_rate_millihertz as int),
                    last_flush_us: None,
                },
                log_data: context.log_data,
                runtime: context.runtime_context@,
            }),
    {
        let data_log_period: u64 = period_us(pictorus_vars.data_log_rate_millihertz);
        let data_logger = DataLogger::new(data_log_period);

        let state_manager = StateManager {
            current_state: State::Main66979State,
            main66979_state: Main66979State::new(&context),
        };

        AppInterface { state_manager, data_logger, context }
    }

    /// The time that the blocks of the active state see as elapsed in the
    /// tick that runs now.
    pub fn timestep_us(&self) -> (timestep_us: u64)
        requires
            self.wf(),
        ensures
            timestep_us == self@.main66979_state.timestep_us(self@.runtime.app_time_us),
            self@.main66979_state.last_time_us is None ==> timestep_us == 0,
    {
        self.state_manager.timestep_us(&self.context)
    }

    /// Runs the tick in which the blocks put out `outputs`: stages the
    /// outputs, completes the record with the state and the application
    /// time, and gives the record back if the logger flushes it.
    pub fn update(&mut self, outputs: &BlockOutputs) -> (flushed: Option<LogData>)
        requires
            old(self).wf(),
        ensures
            final(self).wf(),
            final(self)@ == old(self)@.after_update(*outputs),
            flushed == old(self)@.flushed(*outputs),
    {
        self.state_manager.run(&mut self.context, outputs);

        let logged_state_id = match self.state_manager.current_state {
            State::Main66979State => "main66979_state",
        };
        self.context.log_data.state_id(logged_state_id);

        let app_time_us: u64 = self.context.app_time_us();
        self.context.log_data.timestamp(app_time_us);
        self.context.log_data.app_time_us(app_time_us);

        let flushed = self.data_logger.log(&self.context.log_data, self.context.time());

        self.context.io_manager.flush_inputs();
        flushed
    }

    /// The context of the tick.
    pub fn context(&self) -> (context: &Context)
        ensures
            context.log_data == self@.log_data,
            context.runtime_context@ == self@.runtime,
    {
        &self.context
    }

    /// The application time of the current tick, in microseconds.
    pub fn app_time_us(&self) -> (app_time_us: u64)
        ensures
            app_time_us == self@.runtime.app_time_us,
    {
        self.context.app_time_us()
    }

    /// Moves on to the tick at `app_time_us`.  Application time does not go
    /// back.
    pub fn update_app_time(&mut self, app_time_us: u64)
        requires
            old(self).wf(),
            old(self)@.runtime.app_time_us <= app_time_us,
        ensures
            final(self).wf(),
            final(self)@ == old(self)@.advanced_to(app_time_us as nat),
    {
        self.context.update_app_time(app_time_us);
    }
}

} // verus!
