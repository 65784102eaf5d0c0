use pictorus_blocks::{SinewaveBlock, TrianglewaveBlock};
use pictorus_traits::{Context as BlockContext, GeneratorBlock};
use std::time::Duration;
use tick_engine::app_interface::{AppInterface, PictorusVars};
use tick_engine::context::Context;
use tick_engine::io_manager::IoManager;
use tick_engine::log_data::LogData;
use tick_engine::run_loop::{advance, should_continue};
use tick_engine::runtime::RuntimeContext;
use tick_engine::state::BlockOutputs;
use tick_engine::timing::{RunTime, Timing};

/// What a block reads of the tick.
struct Snapshot {
    time: Duration,
    timestep: Option<Duration>,
    fundamental_timestep: Duration,
}

impl BlockContext for Snapshot {
    fn timestep(&self) -> Option<Duration> {
        self.timestep
    }

    fn time(&self) -> Duration {
        self.time
    }

    fn fundamental_timestep(&self) -> Duration {
        self.fundamental_timestep
    }
}

/// One simulated run of the two wave blocks; gives the flushed records.
fn simulate(run_time_us: u64, rate_millihertz: i64, data_log_rate_millihertz: i64) -> Vec<LogData> {
    let mut timing = Timing::new(RunTime::Bounded(run_time_us), rate_millihertz, false).unwrap();
    let context = Context {
        log_data: LogData::default(),
        io_manager: IoManager {},
        runtime_context: RuntimeContext::new(timing.period_us()),
    };
    let mut app = AppInterface::new(context, &PictorusVars { data_log_rate_millihertz });

    let sine_parameters = <SinewaveBlock<f64> as GeneratorBlock>::Parameters::new(1.0, 1.0, 0.0, 0.0);
    let mut sine = SinewaveBlock::<f64>::default();
    let triangle_parameters =
        <TrianglewaveBlock<f64> as GeneratorBlock>::Parameters::new(1.0, 1.0, 0.0, 0.0);
    let mut triangle = TrianglewaveBlock::<f64>::default();

    let mut flushed: Vec<LogData> = Vec::new();
    let mut first = true;
    while should_continue(&timing, &app, false) {
        let runtime = app.context().get_runtime_context();
        let snapshot = Snapshot {
            time: runtime.time(),
            timestep: if first { None } else { Some(Duration::from_micros(app.timestep_us())) },
            fundamental_timestep: Duration::from_micros(runtime.fundamental_timestep_us()),
        };
        first = false;
        let outputs = BlockOutputs {
            sinewave1_66975_0: sine.generate(&sine_parameters, &snapshot).to_bits(),
            trianglewave1_66977_0: triangle.generate(&triangle_parameters, &snapshot).to_bits(),
        };
        if let Some(record) = app.update(&outputs) {
            flushed.push(record);
        }
        advance(&mut timing, &mut app, 0);
    }
    flushed
}

#[test]
fn sine_wave_at_ten_hertz_for_one_second() {
    let records = simulate(1_000_000, 10_000, 0);
    assert_eq!(records.len(), 10);
    for (index, record) in records.iter().enumerate() {
        let app_time_us = index as u64 * 100_000;
        assert_eq!(record.state_id, Some("main66979_state"));
        assert_eq!(record.app_time_us, Some(app_time_us));
        assert_eq!(record.timestamp, Some(app_time_us));
        // The block's wave is amplitude * sin(frequency * t + phase) + bias.
        let t = Duration::from_micros(app_time_us).as_secs_f64();
        let sine = f64::from_bits(record.sinewave1_66975_0.unwrap());
        assert!((sine - t.sin()).abs() < 1e-12);
        let triangle = f64::from_bits(record.trianglewave1_66977_0.unwrap());
        assert!((-1.0..=1.0).contains(&triangle));
    }
    assert_eq!(records[0].sinewave1_66975_0, Some(0.0f64.to_bits()));
    assert_eq!(records[0].trianglewave1_66977_0, Some((-1.0f64).to_bits()));
}

#[test]
fn two_simulated_runs_put_out_the_same_bits() {
    let first = simulate(3_000_000, 37_000, 0);
    let second = simulate(3_000_000, 37_000, 0);
    assert_eq!(first.len(), 112);
    assert_eq!(first, second);
}

#[test]
fn slow_log_keeps_every_tenth_wave_sample() {
    let all = simulate(1_000_000, 100_000, 0);
    let some = simulate(1_000_000, 100_000, 10_000);
    assert_eq!(all.len(), 100);
    assert_eq!(some.len(), 10);
    for (index, record) in some.iter().enumerate() {
        assert_eq!(*record, all[index * 10]);
    }
}
