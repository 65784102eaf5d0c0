//! The scheduling policy: whether another tick runs, and which application
//! time it gets.
//!
//! Wall-clock instants are given as microseconds since the run began.  The
//! caller owns the clock and the delay: it asks [`Timing::pacing_deadline_us`]
//! how long to wait, waits, reads the clock and hands the reading to
//! [`Timing::update`].

use crate::error::ConfigurationError;
use crate::rate::{period_us, spec_period_us};
use vstd::prelude::*;

verus! {

/// How long a run lasts.
#[derive(Debug, Clone, Copy, PartialEq, Eq, Structural)]
pub enum RunTime {
    /// The run ends only when it is interrupted.
    Unbounded,
    /// The run ends when the application time reaches this many microseconds.
    Bounded(u64),
}

/// What a [`Timing`] stands for.
pub struct TimingModel {
    /// How long the run lasts.
    pub run_time: RunTime,
    /// Microseconds between two tick boundaries.
    pub period_us: nat,
    /// Whether ticks are paced to the wall clock.
    pub realtime: bool,
    /// How many ticks have been completed.
    pub ticks: nat,
}

impl TimingModel {
    /// The period is positive and the next tick boundary is a `u64`.
    pub open spec fn wf(self) -> bool {
        &&& self.period_us > 0
        &&& self.next_boundary_us() <= u64::MAX
    }

    /// A tick runs at `app_time_us` unless the run time has been reached.
    pub open spec fn should_run(self, app_time_us: nat) -> bool {
        match self.run_time {
            RunTime::Unbounded => true,
            RunTime::Bounded(limit_us) => app_time_us < limit_us,
        }
    }

    /// The wall-clock boundary of the next tick, in microseconds since the
    /// run began.
    pub open spec fn next_boundary_us(self) -> nat {
        self.period_us * (self.ticks + 1)
    }

    /// The application time of the next tick: the clock's reading when
    /// pacing, one period after the current time when not.
    pub open spec fn next_app_time_us(self, current_app_time_us: nat, wall_elapsed_us: nat) -> nat {
        if self.realtime {
            wall_elapsed_us
        } else {
            current_app_time_us + self.period_us
        }
    }

    /// The limits of the machine leave room for one more tick, and the clock
    /// has not run backwards.
    pub open spec fn can_update(self, current_app_time_us: nat, wall_elapsed_us: nat) -> bool {
        &&& self.period_us * (self.ticks + 2) <= u64::MAX
        &&& self.realtime ==> current_app_time_us <= wall_elapsed_us
        &&& !self.realtime ==> current_app_time_us + self.period_us <= u64::MAX
    }

    /// The policy after one more completed tick.
    pub open spec fn ticked(self) -> TimingModel {
        TimingModel { ticks: self.ticks + 1, ..self }
    }
}

/// What [`Timing::new`] makes of its arguments.
pub open spec fn spec_new_timing(run_time: RunTime, rate_millihertz: int, use_realtime: bool) -> Result<
    TimingModel,
    ConfigurationError,
> {
    if rate_millihertz <= 0 {
        Err(ConfigurationError::NonPositiveRate)
    } else if rate_millihertz > 1_000_000_000 {
        Err(ConfigurationError::PeriodTooShort)
    } else {
        Ok(
            TimingModel {
                run_time,
                period_us: spec_period_us(rate_millihertz),
                realtime: use_realtime,
                ticks: 0,
            },
        )
    }
}

/// The scheduling policy of one run.
#[derive(Debug)]
pub struct Timing {
    run_time: RunTime,
    period_us: u64,
    use_realtime: bool,
    ticks: u64,
}

impl View for Timing {
    type V = TimingModel;

    closed spec fn view(&self) -> TimingModel {
        TimingModel {
            run_time: self.run_time,
            period_us: self.period_us as nat,
            realtime: self.use_realtime,
            ticks: self.ticks as nat,
        }
    }
}

impl Timing {
    /// The invariant of a policy: see [`TimingModel::wf`].
    pub open spec fn wf(&self) -> bool {
        self@.wf()
    }

    /// A policy for `run_time` at a tick rate of `rate_millihertz`, with no
    /// tick completed.  A rate that is not positive, or whose period is
    /// shorter than a microsecond, is a configuration error.
    pub fn new(run_time: RunTime, rate_millihertz: i64, use_realtime: bool) -> (made: Result<
        Timing,
        ConfigurationError,
    >)
        ensures
            match made {
                Ok(timing) => timing.wf() && spec_new_timing(
                    run_time,
                    rate_millihertz as int,
                    use_realtime,
                ) == Ok::<TimingModel, ConfigurationError>(timing@),
                Err(error) => spec_new_timing(run_time, rate_millihertz as int, use_realtime) == Err::<
                    TimingModel,
                    ConfigurationError,
                >(error),
            },
            made is Err <==> (rate_millihertz <= 0 || rate_millihertz > 1_000_000_000),
    {
        if rate_millihertz <= 0 {
            return Err(ConfigurationError::NonPositiveRate);
        }
        let period: u64 = period_us(rate_millihertz);
        if period == 0 {
            return Err(ConfigurationError::PeriodTooShort);
        }
        let timing = Timing { run_time, period_us: period, use_realtime, ticks: 0 };
        assert(timing@.next_boundary_us() == period) by (nonlinear_arith)
            requires
                timing@.next_boundary_us() == period * (0 + 1),
        ;
        Ok(timing)
    }

    /// Whether a tick runs at `current_app_time_us`: always in an unbounded
    /// run, and in a bounded one until the run time is reached.
    pub fn should_run(&self, current_app_time_us: u64) -> (run: bool)
        ensures
            run == self@.should_run(current_app_time_us as nat),
            self@.run_time is Unbounded ==> run,
            self@.run_time matches RunTime::Bounded(limit_us) ==> (run <==> current_app_time_us
                < limit_us),
    {
        match self.run_time {
            RunTime::Unbounded => true,
            RunTime::Bounded(limit_us) => current_app_time_us < limit_us,
        }
    }

    /// The wall-clock boundary of the next tick, in microseconds since the
    /// run began: the period times the number of the next tick.
    pub fn next_boundary_us(&self) -> (boundary: u64)
        requires
            self.wf(),
        ensures
            boundary == self@.next_boundary_us(),
    {
        assert(self.ticks + 1 <= u64::MAX) by (nonlinear_arith)
            requires
                self.period_us >= 1,
                self.period_us * (self.ticks + 1) <= u64::MAX,
        ;
        self.period_us * (self.ticks + 1)
    }

    /// Until when the caller has to wait before it reads the clock for
    /// [`Timing::update`]: the next boundary when pacing, nothing when not.
    /// A boundary that has passed asks for no wait.
    pub fn pacing_deadline_us(&self) -> (deadline: Option<u64>)
        requires
            self.wf(),
        ensures
            deadline == if self@.realtime {
                Some(self@.next_boundary_us() as u64)
            } else {
                None::<u64>
            },
    {
        if self.use_realtime {
            Some(self.next_boundary_us())
        } else {
            None
        }
    }

    /// Whether [`Timing::update`] may be called with these arguments.
    pub fn can_update(&self, current_app_time_us: u64, wall_elapsed_us: u64) -> (ok: bool)
        requires
            self.wf(),
        ensures
            ok == self@.can_update(current_app_time_us as nat, wall_elapsed_us as nat),
    {
        if self.ticks > u64::MAX - 2 {
            assert(self.period_us * (self.ticks + 2) > u64::MAX) by (nonlinear_arith)
                requires
                    self.period_us >= 1,
                    self.ticks + 2 > u64::MAX,
            ;
            return false;
        }
        let fits: bool = self.period_us.checked_mul(self.ticks + 2).is_some();
        if self.use_realtime {
            fits && current_app_time_us <= wall_elapsed_us
        } else {
            fits && current_app_time_us <= u64::MAX - self.period_us
        }
    }

    /// Completes a tick and gives the application time of the next one.
    ///
    /// `wall_elapsed_us` is the clock's reading, in microseconds since the run
    /// began, taken after the wait that [`Timing::pacing_deadline_us`] asked
    /// for.  When pacing, that reading is the next application time; when
    /// not, the application time advances by exactly one period and the
    /// reading is not looked at.  Either way the application time does not
    /// go back, and the next boundary lies one period after the last one,
    /// however late the tick was: no tick is skipped and none is caught up.
    pub fn update(&mut self, current_app_time_us: u64, wall_elapsed_us: u64) -> (next_app_time_us: u64)
        requires
            old(self).wf(),
            old(self)@.can_update(current_app_time_us as nat, wall_elapsed_us as nat),
        ensures
            final(self).wf(),
            final(self)@ == old(self)@.ticked(),
            next_app_time_us == old(self)@.next_app_time_us(
                current_app_time_us as nat,
                wall_elapsed_us as nat,
            ),
            next_app_time_us >= current_app_time_us,
            !old(self)@.realtime ==> next_app_time_us > current_app_time_us,
            final(self)@.next_boundary_us() == old(self)@.next_boundary_us() + old(self)@.period_us,
    {
        assert(self.ticks + 2 <= u64::MAX && self.period_us * (self.ticks + 1 + 1) == self.period_us
            * (self.ticks + 1) + self.period_us) by (nonlinear_arith)
            requires
                self.period_us >= 1,
                self.period_us * (self.ticks + 2) <= u64::MAX,
        ;
        self.ticks = self.ticks + 1;
        if self.use_realtime {
            wall_elapsed_us
        } else {
            current_app_time_us + self.period_us
        }
    }

    /// Microseconds between two tick boundaries.
    pub fn period_us(&self) -> (period: u64)
        ensures
            period == self@.period_us,
    {
        self.period_us
    }

    /// How long the run lasts.
    pub fn run_time(&self) -> (run_time: RunTime)
        ensures
            run_time == self@.run_time,
    {
        self.run_time
    }

    /// Whether ticks are paced to the wall clock.
    pub fn use_realtime(&self) -> (realtime: bool)
        ensures
            realtime == self@.realtime,
    {
        self.use_realtime
    }

    /// How many ticks have been completed.
    pub fn ticks(&self) -> (ticks: u64)
        ensures
            ticks == self@.ticks,
    {
        self.ticks
    }
}

} // verus!
