//! The states of the application and the manager that runs the active one.
//!
//! A state runs its blocks once per tick, in a fixed order.  The blocks
//! compute with floating-point numbers and live with the caller: the caller
//! asks the state how much time the blocks see as elapsed, runs them, and
//! hands their outputs to the state, which stages them in the record of the
//! tick.

use crate::context::Context;
use crate::log_data::LogData;
use vstd::prelude::*;

verus! {

/// The states of the application.
#[derive(Debug, Clone, Copy, PartialEq, Eq, Structural)]
pub enum State {
    /// The main state, in which the wave blocks run.
    Main66979State,
}

/// What the blocks of the main state put out in one tick, each output as
/// the bit pattern of a 64-bit floating-point number.
#[derive(Debug, Clone, Copy, PartialEq, Eq)]
pub struct BlockOutputs {
    /// The output of the sine wave block, which runs first.
    pub sinewave1_66975_0: u64,
    /// The output of the triangle wave block, which runs second.
    pub trianglewave1_66977_0: u64,
}

/// What a [`Main66979State`] stands for.
pub struct StateModel {
    /// The application time of the last tick that the state ran, if it ran.
    pub last_time_us: Option<nat>,
}

impl StateModel {
    /// The state has not run after `app_time_us`.
    pub open spec fn seen_by(self, app_time_us: nat) -> bool {
        match self.last_time_us {
            None => true,
            Some(last_us) => last_us <= app_time_us,
        }
    }

    /// The time that the blocks see as elapsed in the tick at `app_time_us`:
    /// zero on the first tick that the state runs, whatever the application
    /// time; else the time since the last tick that it ran.
    pub open spec fn timestep_us(self, app_time_us: nat) -> nat {
        match self.last_time_us {
            None => 0,
            Some(last_us) => (app_time_us - last_us) as nat,
        }
    }
}

/// The record `record` with the outputs of the main state's blocks staged
/// in it.
pub open spec fn spec_staged(record: LogData, outputs: BlockOutputs) -> LogData {
    LogData {
        sinewave1_66975_0: Some(outputs.sinewave1_66975_0),
        trianglewave1_66977_0: Some(outputs.trianglewave1_66977_0),
        ..record
    }
}

/// The main state: a sine wave block and a triangle wave block.
#[derive(Debug)]
pub struct Main66979State {
    last_time_us: Option<u64>,
}

impl View for Main66979State {
    type V = StateModel;

    closed spec fn view(&self) -> StateModel {
        StateModel {
            last_time_us: match self.last_time_us {
                None => None,
                Some(last_us) => Some(last_us as nat),
            },
        }
    }
}

impl Main66979State {
    /// The state before its first tick.
    pub fn new(_context: &Context) -> (state: Main66979State)
        ensures
            state@.last_time_us is None,
    {
        Main66979State { last_time_us: None }
    }

    /// The time that the blocks see as elapsed in the tick of `context`.  On
    /// the first tick that the state runs it is zero.
    pub fn timestep_us(&self, context: &Context) -> (timestep_us: u64)
        requires
            self@.seen_by(context.runtime_context@.app_time_us),
        ensures
            timestep_us == self@.timestep_us(context.runtime_context@.app_time_us),
            self@.last_time_us is None ==> timestep_us == 0,
    {
        let app_time_us: u64 = context.app_time_us();
        match self.last_time_us {
            None => 0,
            Some(last_us) => app_time_us - last_us,
        }
    }

    /// Runs the tick of `context`: stages the outputs of the blocks in the
    /// record, the sine wave first, and remembers the application time.
    pub fn run(&mut self, context: &mut Context, outputs: &BlockOutputs)
        ensures
            final(self)@.last_time_us == Some(old(context).runtime_context@.app_time_us),
            final(context).log_data == spec_staged(old(context).log_data, *outputs),
            final(context).io_manager == old(context).io_manager,
            final(context).runtime_context == old(context).runtime_context,
    {
        let app_time_us: u64 = context.app_time_us();

        // Sinewave1
        context.log_data.sinewave1_66975_0(outputs.sinewave1_66975_0);
        // Trianglewave1
        context.log_data.trianglewave1_66977_0(outputs.trianglewave1_66977_0);

        self.last_time_us = Some(app_time_us);
    }

    /// What is left to do when the state has run.  Nothing.
    pub fn post_run(&mut self)
        ensures
            *final(self) == *old(self),
    {
    }
}

/// Runs the state that is active.
#[derive(Debug)]
pub struct StateManager {
    /// Which state is active.
    pub current_state: State,
    /// The main state.
    pub main66979_state: Main66979State,
}

impl StateManager {
    /// The time that the blocks of the active state see as elapsed in the
    /// tick of `context`.
    pub fn timestep_us(&self, context: &Context) -> (timestep_us: u64)
        requires
            self.main66979_state@.seen_by(context.runtime_context@.app_time_us),
        ensures
            timestep_us == self.main66979_state@.timestep_us(context.runtime_context@.app_time_us),
    {
        match self.current_state {
            State::Main66979State => self.main66979_state.timestep_us(context),
        }
    }

    /// Runs the tick of `context` in the active state, and leaves the
    /// active state as it is.
    pub fn run(&mut self, context: &mut Context, outputs: &BlockOutputs)
        ensures
            final(self).current_state == old(self).current_state,
            final(self).main66979_state@.last_time_us == Some(
                old(context).runtime_context@.app_time_us,
            ),
            final(context).log_data == spec_staged(old(context).log_data, *outputs),
            final(context).io_manager == old(context).io_manager,
            final(context).runtime_context == old(context).runtime_context,
    {
        match self.current_state {
            State::Main66979State => self.main66979_state.run(context, outputs),
        };
    }
}

} // verus!
