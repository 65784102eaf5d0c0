use tick_engine::app_interface::{AppInterface, PictorusVars};
use tick_engine::context::Context;
use tick_engine::io_manager::IoManager;
use tick_engine::log_data::LogData;
use tick_engine::run_loop::{advance, should_continue};
use tick_engine::runtime::RuntimeContext;
use tick_engine::state::BlockOutputs;
use tick_engine::timing::{RunTime, Timing};

fn new_app(data_log_rate_millihertz: i64) -> AppInterface {
    let context = Context {
        log_data: LogData::default(),
        io_manager: IoManager {},
        runtime_context: RuntimeContext::new(100_000),
    };
    AppInterface::new(context, &PictorusVars { data_log_rate_millihertz })
}

/// A block that puts out its tick's application time and timestep.
fn echo(app: &AppInterface) -> BlockOutputs {
    BlockOutputs { sinewave1_66975_0: app.app_time_us(), trianglewave1_66977_0: app.timestep_us() }
}

/// What one run left behind.
struct Outcome {
    ticks: Vec<BlockOutputs>,
    flushed: Vec<LogData>,
    waits: Vec<Option<u64>>,
}

/// Runs the loop.  The clock reads `readings[i]` at the end of tick `i`, and
/// the interrupt arrives while tick number `interrupt_in_tick` runs.
fn run(
    timing: &mut Timing,
    app: &mut AppInterface,
    readings: &[u64],
    interrupt_in_tick: Option<usize>,
) -> Outcome {
    let mut outcome = Outcome { ticks: Vec::new(), flushed: Vec::new(), waits: Vec::new() };
    let mut interrupted = false;
    while should_continue(timing, app, interrupted) {
        let tick = outcome.ticks.len();
        if interrupt_in_tick == Some(tick) {
            interrupted = true;
        }
        let outputs = echo(app);
        outcome.ticks.push(outputs);
        if let Some(record) = app.update(&outputs) {
            outcome.flushed.push(record);
        }
        outcome.waits.push(timing.pacing_deadline_us());
        let reading = readings.get(tick).copied().unwrap_or(0);
        assert!(timing.can_update(app.app_time_us(), reading));
        advance(timing, app, reading);
    }
    outcome
}

#[test]
fn loop_does_not_start_when_interrupted() {
    let timing = Timing::new(RunTime::Unbounded, 10_000, false).unwrap();
    let app = new_app(0);
    assert!(should_continue(&timing, &app, false));
    assert!(!should_continue(&timing, &app, true));
}

#[test]
fn loop_does_not_start_when_the_run_time_is_over() {
    let timing = Timing::new(RunTime::Bounded(100_000), 10_000, false).unwrap();
    let mut app = new_app(0);
    assert!(should_continue(&timing, &app, false));
    app.update_app_time(99_999);
    assert!(should_continue(&timing, &app, false));
    assert!(!should_continue(&timing, &app, true));
    app.update_app_time(100_000);
    assert!(!should_continue(&timing, &app, false));
    assert!(!should_continue(&timing, &app, true));
}

#[test]
fn advance_moves_the_application_to_the_next_tick() {
    let mut timing = Timing::new(RunTime::Unbounded, 10_000, false).unwrap();
    let mut app = new_app(0);
    advance(&mut timing, &mut app, 999);
    assert_eq!(app.app_time_us(), 100_000);
    assert_eq!(app.context().get_runtime_context().elapsed_us(), 100_000);
    assert_eq!(timing.ticks(), 1);

    let mut paced = Timing::new(RunTime::Unbounded, 10_000, true).unwrap();
    let mut app = new_app(0);
    advance(&mut paced, &mut app, 100_250);
    assert_eq!(app.app_time_us(), 100_250);
    advance(&mut paced, &mut app, 200_000);
    assert_eq!(app.app_time_us(), 200_000);
    assert_eq!(app.context().get_runtime_context().elapsed_us(), 99_750);
    assert_eq!(paced.ticks(), 2);
}

#[test]
fn simulated_run_of_one_second_at_ten_hertz_runs_ten_ticks() {
    let mut timing = Timing::new(RunTime::Bounded(1_000_000), 10_000, false).unwrap();
    let mut app = new_app(0);
    let outcome = run(&mut timing, &mut app, &[], None);
    let times: Vec<u64> = outcome.ticks.iter().map(|tick| tick.sinewave1_66975_0).collect();
    assert_eq!(
        times,
        vec![0, 100_000, 200_000, 300_000, 400_000, 500_000, 600_000, 700_000, 800_000, 900_000]
    );
    let timesteps: Vec<u64> = outcome.ticks.iter().map(|tick| tick.trianglewave1_66977_0).collect();
    assert_eq!(
        timesteps,
        vec![0, 100_000, 100_000, 100_000, 100_000, 100_000, 100_000, 100_000, 100_000, 100_000]
    );
    assert_eq!(outcome.flushed.len(), 10);
    assert!(outcome.waits.iter().all(|wait| wait.is_none()));
    assert_eq!(app.app_time_us(), 1_000_000);
}

#[test]
fn log_rate_is_decoupled_from_the_tick_rate() {
    // 100 Hz ticks, 10 Hz log, one second: ten records, not a hundred.
    let mut timing = Timing::new(RunTime::Bounded(1_000_000), 100_000, false).unwrap();
    let mut app = new_app(10_000);
    let outcome = run(&mut timing, &mut app, &[], None);
    assert_eq!(outcome.ticks.len(), 100);
    assert_eq!(outcome.flushed.len(), 10);
    let flushed_at: Vec<Option<u64>> = outcome.flushed.iter().map(|record| record.app_time_us).collect();
    let expected: Vec<Option<u64>> = (0..10u64).map(|index| Some(index * 100_000)).collect();
    assert_eq!(flushed_at, expected);
    for record in &outcome.flushed {
        assert_eq!(record.state_id, Some("main66979_state"));
        assert_eq!(record.timestamp, record.app_time_us);
        assert_eq!(record.sinewave1_66975_0, record.app_time_us);
    }
}

#[test]
fn records_are_flushed_in_tick_order() {
    let mut timing = Timing::new(RunTime::Bounded(2_000_000), 50_000, false).unwrap();
    let mut app = new_app(7_000);
    let outcome = run(&mut timing, &mut app, &[], None);
    assert_eq!(outcome.ticks.len(), 100);
    // The log period is 142857 us: a record every eighth tick.
    assert_eq!(outcome.flushed.len(), 13);
    for pair in outcome.flushed.windows(2) {
        assert_eq!(pair[1].app_time_us.unwrap() - pair[0].app_time_us.unwrap(), 160_000);
    }
}

#[test]
fn interrupt_lets_the_tick_in_flight_finish() {
    let mut timing = Timing::new(RunTime::Bounded(1_000_000), 10_000, false).unwrap();
    let mut app = new_app(0);
    // The flag is set while tick number 3 runs.
    let outcome = run(&mut timing, &mut app, &[], Some(3));
    assert_eq!(outcome.ticks.len(), 4);
    assert_eq!(outcome.flushed.len(), 4);
    let last = outcome.flushed[3];
    assert_eq!(
        last,
        LogData {
            state_id: Some("main66979_state"),
            timestamp: Some(300_000),
            app_time_us: Some(300_000),
            sinewave1_66975_0: Some(300_000),
            trianglewave1_66977_0: Some(100_000),
        }
    );
    // The tick was completed: time has moved on, but tick number 4 never ran.
    assert_eq!(timing.ticks(), 4);
    assert_eq!(app.app_time_us(), 400_000);
    assert!(timing.should_run(app.app_time_us()));
    assert!(!should_continue(&timing, &app, true));
}

#[test]
fn interrupt_in_the_first_tick_leaves_one_whole_record() {
    let mut timing = Timing::new(RunTime::Unbounded, 10_000, false).unwrap();
    let mut app = new_app(0);
    let outcome = run(&mut timing, &mut app, &[], Some(0));
    assert_eq!(outcome.ticks.len(), 1);
    assert_eq!(outcome.flushed.len(), 1);
    let record = outcome.flushed[0];
    assert!(record.state_id.is_some());
    assert!(record.timestamp.is_some());
    assert!(record.app_time_us.is_some());
    assert!(record.sinewave1_66975_0.is_some());
    assert!(record.trianglewave1_66977_0.is_some());
}

#[test]
fn paced_run_takes_its_time_from_the_clock() {
    let readings: [u64; 6] = [100_010, 200_005, 300_000, 650_000, 700_000, 1_000_020];
    let mut timing = Timing::new(RunTime::Bounded(1_000_000), 10_000, true).unwrap();
    let mut app = new_app(0);
    let outcome = run(&mut timing, &mut app, &readings, None);
    let times: Vec<u64> = outcome.ticks.iter().map(|tick| tick.sinewave1_66975_0).collect();
    assert_eq!(times, vec![0, 100_010, 200_005, 300_000, 650_000, 700_000]);
    let timesteps: Vec<u64> = outcome.ticks.iter().map(|tick| tick.trianglewave1_66977_0).collect();
    assert_eq!(timesteps, vec![0, 100_010, 99_995, 99_995, 350_000, 50_000]);
    // The wait is for the boundary on the grid, also when the run is behind.
    assert_eq!(
        outcome.waits,
        vec![
            Some(100_000),
            Some(200_000),
            Some(300_000),
            Some(400_000),
            Some(500_000),
            Some(600_000)
        ]
    );
    assert_eq!(app.app_time_us(), 1_000_020);
    for pair in times.windows(2) {
        assert!(pair[0] <= pair[1]);
    }
}

#[test]
fn simulated_runs_are_the_same_whatever_the_clock_reads() {
    let first_readings: [u64; 4] = [5, 1, 900_000_000, 0];
    let second_readings: [u64; 4] = [0, 0, 0, 0];
    let mut first_timing = Timing::new(RunTime::Bounded(750_000), 8_000, false).unwrap();
    let mut second_timing = Timing::new(RunTime::Bounded(750_000), 8_000, false).unwrap();
    let mut first_app = new_app(3_000);
    let mut second_app = new_app(3_000);
    let first = run(&mut first_timing, &mut first_app, &first_readings, None);
    let second = run(&mut second_timing, &mut second_app, &second_readings, None);
    assert_eq!(first.ticks.len(), 6);
    assert_eq!(first.ticks, second.ticks);
    assert_eq!(first.flushed, second.flushed);
    assert_eq!(first.flushed.len(), 2);
    assert_eq!(first_app.context().log_data, second_app.context().log_data);
    assert_eq!(first_app.app_time_us(), second_app.app_time_us());
}
