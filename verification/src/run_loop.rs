//! The loop of a run: whether another tick starts, how application time
//! moves from one tick to the next, and what holds of every run.
//!
//! The loop itself belongs to the caller, who owns the blocks, the clock and
//! the interrupt flag.  Per tick it asks [`should_continue`], runs the blocks,
//! calls [`AppInterface::update`], waits as [`Timing::pacing_deadline_us`]
//! says, reads the clock and calls [`advance`].

use crate::app_interface::{AppInterface, AppModel};
use crate::log_data::LogData;
use crate::rate::{lemma_period_bounds, spec_period_us};
use crate::state::BlockOutputs;
use crate::timing::{RunTime, Timing, TimingModel};
use vstd::prelude::*;

verus! {

/// Whether the loop starts another tick: the policy lets one run at the
/// current application time, and no interrupt has been seen.  The flag is
/// looked at between ticks only, so a tick that has started is completed.
pub fn should_continue(timing: &Timing, app_interface: &AppInterface, interrupted: bool) -> (go: bool)
    ensures
        go == (timing@.should_run(app_interface@.runtime.app_time_us) && !interrupted),
        interrupted ==> !go,
{
    timing.should_run(app_interface.app_time_us()) && !interrupted
}

/// Ends a tick: completes it in the policy and moves the application on to
/// the time that the policy gives for the next tick.  `wall_elapsed_us` is
/// the clock's reading as [`Timing::update`] takes it.  Application time
/// does not go back.
pub fn advance(timing: &mut Timing, app_interface: &mut AppInterface, wall_elapsed_us: u64)
    requires
        old(timing).wf(),
        old(app_interface).wf(),
        old(timing)@.can_update(old(app_interface)@.runtime.app_time_us, wall_elapsed_us as nat),
    ensures
        final(timing).wf(),
        final(app_interface).wf(),
        final(timing)@ == old(timing)@.ticked(),
        final(app_interface)@ == old(app_interface)@.advanced_to(
            old(timing)@.next_app_time_us(
                old(app_interface)@.runtime.app_time_us,
                wall_elapsed_us as nat,
            ),
        ),
        old(app_interface)@.runtime.app_time_us <= final(app_interface)@.runtime.app_time_us,
{
    let next_app_time_us: u64 = timing.update(app_interface.app_time_us(), wall_elapsed_us);
    app_interface.update_app_time(next_app_time_us);
}

/// The application time of tick number `tick` of a run that starts at zero,
/// where `readings_us[i]` is the clock's reading at the end of tick `i`.
pub open spec fn app_time_of_tick(timing: TimingModel, readings_us: Seq<nat>, tick: nat) -> nat
    decreases tick,
{
    if tick == 0 {
        0
    } else {
        timing.next_app_time_us(
            app_time_of_tick(timing, readings_us, (tick - 1) as nat),
            readings_us[tick - 1],
        )
    }
}

/// The application at the start of tick number `tick` of a run that starts
/// from `app`, where the blocks put out `outputs[i]` in tick `i` and
/// `readings_us[i]` is the clock's reading at the end of tick `i`.
pub open spec fn app_at_tick(
    app: AppModel,
    timing: TimingModel,
    outputs: Seq<BlockOutputs>,
    readings_us: Seq<nat>,
    tick: nat,
) -> AppModel
    decreases tick,
{
    if tick == 0 {
        app
    } else {
        let before = app_at_tick(app, timing, outputs, readings_us, (tick - 1) as nat);
        before.after_update(outputs[tick - 1]).advanced_to(
            timing.next_app_time_us(before.runtime.app_time_us, readings_us[tick - 1]),
        )
    }
}

/// What tick number `tick` of that run hands to the sink.
pub open spec fn flushed_in_tick(
    app: AppModel,
    timing: TimingModel,
    outputs: Seq<BlockOutputs>,
    readings_us: Seq<nat>,
    tick: nat,
) -> Option<LogData> {
    app_at_tick(app, timing, outputs, readings_us, tick).flushed(outputs[tick as int])
}

/// `a / b`, rounded up.
pub open spec fn spec_ceil_div(a: nat, b: nat) -> nat
    recommends
        b > 0,
{
    ((a + b - 1) / (b as int)) as nat
}

/// How many ticks a run of `limit_us` microseconds executes when each tick
/// advances the application time by `period_us`.
pub open spec fn spec_tick_count(limit_us: nat, period_us: nat) -> nat
    recommends
        period_us > 0,
{
    spec_ceil_div(limit_us, period_us)
}

/// `spec_ceil_div(a, b)` is the least `k` with `k * b >= a`.
pub proof fn lemma_ceil_div_is_least(a: nat, b: nat, k: nat)
    requires
        b > 0,
    ensures
        k * b >= a <==> k >= spec_ceil_div(a, b),
{
    let q: int = (a + b - 1) / (b as int);
    assert(q >= 0 && q * b <= a + b - 1 < q * b + b) by (nonlinear_arith)
        requires
            b > 0,
            q == (a + b - 1) / (b as int),
    ;
    assert(spec_ceil_div(a, b) == q);
    if k >= q {
        assert(k * b >= q * b) by (nonlinear_arith)
            requires
                k >= q,
                b > 0,
        ;
    } else {
        assert(k * b <= q * b - b) by (nonlinear_arith)
            requires
                k <= q - 1,
                b > 0,
        ;
    }
}

/// Application time never goes back: with a clock that does not run
/// backwards, no tick of a run has an earlier application time than a tick
/// before it.  A run that is not paced needs nothing of the clock.
pub proof fn lemma_app_time_never_goes_back(
    timing: TimingModel,
    readings_us: Seq<nat>,
    earlier: nat,
    later: nat,
)
    requires
        earlier <= later <= readings_us.len(),
        timing.realtime ==> forall|i: int, j: int|
            0 <= i <= j < readings_us.len() ==> readings_us[i] <= readings_us[j],
    ensures
        app_time_of_tick(timing, readings_us, earlier) <= app_time_of_tick(
            timing,
            readings_us,
            later,
        ),
    decreases later - earlier,
{
    if earlier < later {
        let before = (later - 1) as nat;
        lemma_app_time_never_goes_back(timing, readings_us, earlier, before);
        if timing.realtime && before > 0 {
            assert(app_time_of_tick(timing, readings_us, before) == readings_us[before - 1]);
            assert(readings_us[before - 1] <= readings_us[later - 1]);
        }
    }
}

/// In a run that is not paced, tick number `tick` has the application time
/// `tick * period`, whatever the clock reads.
pub proof fn lemma_simulated_time(timing: TimingModel, readings_us: Seq<nat>, tick: nat)
    requires
        !timing.realtime,
    ensures
        app_time_of_tick(timing, readings_us, tick) == tick * timing.period_us,
    decreases tick,
{
    if tick > 0 {
        lemma_simulated_time(timing, readings_us, (tick - 1) as nat);
        assert(tick * timing.period_us == (tick - 1) * timing.period_us + timing.period_us)
            by (nonlinear_arith);
    } else {
        assert(tick * timing.period_us == 0) by (nonlinear_arith)
            requires
                tick == 0,
        ;
    }
}

/// Two runs that are not paced and have the same period give every tick
/// the same application time, whatever their clocks read.
pub proof fn lemma_simulated_runs_agree(
    first: TimingModel,
    second: TimingModel,
    first_readings_us: Seq<nat>,
    second_readings_us: Seq<nat>,
    tick: nat,
)
    requires
        !first.realtime,
        !second.realtime,
        first.period_us == second.period_us,
    ensures
        app_time_of_tick(first, first_readings_us, tick) == app_time_of_tick(
            second,
            second_readings_us,
            tick,
        ),
{
    lemma_simulated_time(first, first_readings_us, tick);
    lemma_simulated_time(second, second_readings_us, tick);
}

/// A run that starts at application time zero gives its ticks the
/// application times of [`app_time_of_tick`].
pub proof fn lemma_app_at_tick_time(
    app: AppModel,
    timing: TimingModel,
    outputs: Seq<BlockOutputs>,
    readings_us: Seq<nat>,
    tick: nat,
)
    requires
        app.runtime.app_time_us == 0,
    ensures
        app_at_tick(app, timing, outputs, readings_us, tick).runtime.app_time_us
            == app_time_of_tick(timing, readings_us, tick),
    decreases tick,
{
    if tick > 0 {
        lemma_app_at_tick_time(app, timing, outputs, readings_us, (tick - 1) as nat);
    }
}

/// A run that is not paced is determined by where it starts, its period and
/// what its blocks put out: two such runs that agree in these give every
/// tick the same application time and the same record, flush the same
/// records and leave the application in the same state, whatever their
/// clocks read.
pub proof fn lemma_simulated_runs_flush_the_same(
    app: AppModel,
    first: TimingModel,
    second: TimingModel,
    first_outputs: Seq<BlockOutputs>,
    second_outputs: Seq<BlockOutputs>,
    first_readings_us: Seq<nat>,
    second_readings_us: Seq<nat>,
    tick: nat,
)
    requires
        !first.realtime,
        !second.realtime,
        first.period_us == second.period_us,
        forall|i: int| 0 <= i <= tick ==> first_outputs[i] == second_outputs[i],
    ensures
        app_at_tick(app, first, first_outputs, first_readings_us, tick) == app_at_tick(
            app,
            second,
            second_outputs,
            second_readings_us,
            tick,
        ),
        flushed_in_tick(app, first, first_outputs, first_readings_us, tick) == flushed_in_tick(
            app,
            second,
            second_outputs,
            second_readings_us,
            tick,
        ),
    decreases tick,
{
    if tick > 0 {
        lemma_simulated_runs_flush_the_same(
            app,
            first,
            second,
            first_outputs,
            second_outputs,
            first_readings_us,
            second_readings_us,
            (tick - 1) as nat,
        );
        assert(first_outputs[tick - 1] == second_outputs[tick - 1]);
    }
    assert(first_outputs[tick as int] == second_outputs[tick as int]);
}

/// A run of `limit_us` that is not paced executes exactly the ticks with a
/// number below `limit_us / period`, rounded up: the policy lets tick
/// number `tick` run if and only if `tick` is below that count.  And it
/// lets no tick run at an application time of `limit_us` or later.
pub proof fn lemma_bounded_run_tick_count(
    timing: TimingModel,
    readings_us: Seq<nat>,
    limit_us: u64,
    tick: nat,
)
    requires
        timing.wf(),
        !timing.realtime,
        timing.run_time == RunTime::Bounded(limit_us),
    ensures
        timing.should_run(app_time_of_tick(timing, readings_us, tick)) <==> tick < spec_tick_count(
            limit_us as nat,
            timing.period_us,
        ),
        forall|app_time_us: nat| app_time_us >= limit_us ==> !timing.should_run(app_time_us),
{
    lemma_simulated_time(timing, readings_us, tick);
    lemma_ceil_div_is_least(limit_us as nat, timing.period_us, tick);
}

/// The tick count of a run of `limit_us` at a rate of `rate_millihertz`,
/// held against `limit_us * rate_millihertz / 10^9`, rounded up: the run
/// time times the rate.  The count is never below it.  It is equal to it
/// where the rate divides `10^9`, so that the period is exact.  It is at
/// most one above it where the rounding of the period, added up over the
/// run, comes to no more than one period.
pub proof fn lemma_tick_count_of_rate(limit_us: nat, rate_millihertz: nat)
    requires
        0 < rate_millihertz <= 1_000_000_000,
    ensures
        spec_period_us(rate_millihertz as int) > 0,
        spec_ceil_div(limit_us * rate_millihertz, 1_000_000_000) <= spec_tick_count(
            limit_us,
            spec_period_us(rate_millihertz as int),
        ),
        spec_period_us(rate_millihertz as int) * rate_millihertz == 1_000_000_000
            ==> spec_tick_count(limit_us, spec_period_us(rate_millihertz as int)) == spec_ceil_div(
            limit_us * rate_millihertz,
            1_000_000_000,
        ),
        limit_us * (1_000_000_000 - spec_period_us(rate_millihertz as int) * rate_millihertz)
            <= spec_period_us(rate_millihertz as int) * 1_000_000_000 ==> spec_tick_count(
            limit_us,
            spec_period_us(rate_millihertz as int),
        ) <= spec_ceil_div(limit_us * rate_millihertz, 1_000_000_000) + 1,
{
    let period = spec_period_us(rate_millihertz as int);
    let rate = rate_millihertz;
    let unit: nat = 1_000_000_000;
    let ticks = spec_tick_count(limit_us, period);
    let ideal = spec_ceil_div(limit_us * rate, unit);
    lemma_period_bounds(rate as int);
    assert(period > 0);
    assert(period * rate <= unit);
    lemma_ceil_div_is_least(limit_us, period, ticks);
    lemma_ceil_div_is_least(limit_us * rate, unit, ideal);
    assert(ticks * period >= limit_us);
    assert(ideal * unit >= limit_us * rate);

    // Never below.
    assert(ticks * unit >= limit_us * rate) by (nonlinear_arith)
        requires
            ticks * period >= limit_us,
            period * rate <= unit,
            rate > 0,
    ;
    lemma_ceil_div_is_least(limit_us * rate, unit, ticks);

    // Equal where the period is exact.
    if period * rate == unit {
        assert(ideal * period >= limit_us) by (nonlinear_arith)
            requires
                ideal * unit >= limit_us * rate,
                period * rate == unit,
                rate > 0,
        ;
        lemma_ceil_div_is_least(limit_us, period, ideal);
    }
    // At most one above where the rounding adds up to one period at most.

    if limit_us * (unit - period * rate) <= period * unit {
        assert((ideal + 1) * period >= limit_us) by (nonlinear_arith)
            requires
                ideal * unit >= limit_us * rate,
                limit_us * (unit - period * rate) <= period * unit,
                period > 0,
                unit > 0,
        ;
        lemma_ceil_div_is_least(limit_us, period, ideal + 1);
    }
}

} // verus!
