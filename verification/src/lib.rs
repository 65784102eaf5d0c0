//! A fixed-rate execution engine.
//!
//! Once per tick the engine runs the blocks of the active state, stages their
//! outputs in the record of the tick, lets a rate-limited logger decide
//! whether the record is flushed, and moves the application time on to the
//! next tick.  A run ends when its run time is reached or when it is
//! interrupted between two ticks.
//!
//! The engine makes the decisions and keeps the state; it does no input or
//! output and no floating-point arithmetic.  Whoever runs it owns the blocks,
//! the clock, the delay, the sink of the log and the interrupt flag, and
//! hands the engine what these produce: block outputs as bit patterns, clock
//! readings as microseconds since the run began.  Times are whole
//! microseconds and rates whole millihertz throughout.
//!
//! - [`timing`]: whether another tick runs, and which application time it
//!   gets.
//! - [`runtime`], [`context`]: the application time that a tick sees, and
//!   what a tick works on.
//! - [`state`]: the states and the manager that runs the active one.
//! - [`log_data`], [`logger`]: the record of a tick, and which records are
//!   flushed.
//! - [`io_manager`], [`app_interface`]: the application and what it is
//!   started from.
//! - [`run_loop`]: the steps of the loop, and what holds of every run.
//! - [`rate`], [`span`], [`error`]: periods of rates, spans of time, and
//!   configuration errors.

use vstd::prelude::*;

pub mod app_interface;
pub mod context;
pub mod error;
pub mod io_manager;
pub mod log_data;
pub mod logger;
pub mod rate;
pub mod run_loop;
pub mod runtime;
pub mod span;
pub mod state;
pub mod timing;

verus! {

/// Build identification of this engine.
pub fn compile_info() -> (info: &'static str)
    ensures
        info@ == "git_test_6888d8981b7c297dc266691a version : compiled 07/29/2025 - 15:22:56"@,
{
    return "git_test_6888d8981b7c297dc266691a version : compiled 07/29/2025 - 15:22:56";
}

} // verus!
