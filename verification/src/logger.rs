//! The cadence of the log: which records go on to the sink.
//!
//! The logger sees one record per tick and lets at most one of them through
//! per log period.  It does no input or output: it hands the record that is
//! due back to the caller, who owns the sink.

use crate::log_data::LogData;
use crate::span::{micros_of_span, span_micros};
use core::time::Duration;
use vstd::prelude::*;

verus! {

/// What a [`DataLogger`] stands for.
pub struct LoggerModel {
    /// Microseconds between two flushed records; zero flushes every record.
    pub log_period_us: nat,
    /// When the last record was flushed, if one was.
    pub last_flush_us: Option<nat>,
}

impl LoggerModel {
    /// Whether a record that arrives at `now_us` is flushed: always with a
    /// period of zero; else when it is the first, or when at least one
    /// period has gone by since the last flush.
    pub open spec fn flushes_at(self, now_us: nat) -> bool {
        self.log_period_us == 0 || match self.last_flush_us {
            None => true,
            Some(last_us) => last_us + self.log_period_us <= now_us,
        }
    }

    /// The logger after a record has arrived at `now_us`.
    pub open spec fn after(self, now_us: nat) -> LoggerModel {
        if self.flushes_at(now_us) {
            LoggerModel { last_flush_us: Some(now_us), ..self }
        } else {
            self
        }
    }
}

/// The arrival times, out of `times_us` and in their order, of the records
/// that a logger flushes when one record arrives at each of these times.
pub open spec fn flush_times(logger: LoggerModel, times_us: Seq<nat>) -> Seq<nat>
    decreases times_us.len(),
{
    if times_us.len() == 0 {
        Seq::empty()
    } else {
        let rest = flush_times(logger.after(times_us[0]), times_us.skip(1));
        if logger.flushes_at(times_us[0]) {
            seq![times_us[0]] + rest
        } else {
            rest
        }
    }
}

/// With a log period of zero every record is flushed.
pub proof fn lemma_zero_period_flushes_all(logger: LoggerModel, times_us: Seq<nat>)
    requires
        logger.log_period_us == 0,
    ensures
        flush_times(logger, times_us) == times_us,
    decreases times_us.len(),
{
    if times_us.len() > 0 {
        lemma_zero_period_flushes_all(logger.after(times_us[0]), times_us.skip(1));
        assert(seq![times_us[0]] + times_us.skip(1) =~= times_us);
    }
}

/// At most one record is flushed per log period: with a positive period,
/// every flushed record arrived at least one period after the flushed record
/// before it, and the first of them at least one period after the last
/// flush that the logger had made before.  Whatever the period, the flushed
/// records are among those that arrived.
pub proof fn lemma_flushes_are_spaced(logger: LoggerModel, times_us: Seq<nat>)
    ensures
        flush_times(logger, times_us).len() <= times_us.len(),
        forall|i: int|
            0 <= i < flush_times(logger, times_us).len() ==> times_us.contains(
                #[trigger] flush_times(logger, times_us)[i],
            ),
        logger.log_period_us > 0 ==> forall|i: int|
            0 <= i < flush_times(logger, times_us).len() - 1 ==> (#[trigger] flush_times(
                logger,
                times_us,
            )[i]) + logger.log_period_us <= flush_times(logger, times_us)[i + 1],
        logger.log_period_us > 0 && flush_times(logger, times_us).len() > 0 ==> (
        logger.last_flush_us matches Some(last_us) ==> last_us + logger.log_period_us <= flush_times(
            logger,
            times_us,
        )[0]),
    decreases times_us.len(),
{
    if times_us.len() > 0 {
        let first = times_us[0];
        let tail = times_us.skip(1);
        let rest = flush_times(logger.after(first), tail);
        let all = flush_times(logger, times_us);
        lemma_flushes_are_spaced(logger.after(first), tail);
        assert forall|i: int| 0 <= i < rest.len() implies times_us.contains(#[trigger] rest[i]) by {
            assert(tail.contains(rest[i]));
            let j = choose|j: int| 0 <= j < tail.len() && tail[j] == rest[i];
            assert(times_us[j + 1] == rest[i]);
        }
        if logger.flushes_at(first) {
            assert(all == seq![first] + rest);
            assert(all[0] == first);
            assert(times_us.contains(first));
            assert forall|i: int| 0 <= i < all.len() implies times_us.contains(#[trigger] all[i]) by {
                if i > 0 {
                    assert(all[i] == rest[i - 1]);
                }
            }
            if logger.log_period_us > 0 {
                assert forall|i: int| 0 <= i < all.len() - 1 implies (#[trigger] all[i])
                    + logger.log_period_us <= all[i + 1] by {
                    assert(all[i + 1] == rest[i]);
                    if i > 0 {
                        assert(all[i] == rest[i - 1]);
                    }
                }
            }
        } else {
            assert(all == rest);
        }
    }
}

/// A run of flushed records spans at least one log period per record after
/// the first.
pub proof fn lemma_flush_span(logger: LoggerModel, times_us: Seq<nat>, k: int)
    requires
        logger.log_period_us > 0,
        0 <= k < flush_times(logger, times_us).len(),
    ensures
        flush_times(logger, times_us)[0] + k * logger.log_period_us <= flush_times(
            logger,
            times_us,
        )[k],
    decreases k,
{
    let all = flush_times(logger, times_us);
    let period = logger.log_period_us as int;
    if k > 0 {
        lemma_flush_span(logger, times_us, k - 1);
        lemma_flushes_are_spaced(logger, times_us);
        assert(all[k - 1] + period <= all[k - 1 + 1]);
        assert(k * period == (k - 1) * period + period) by (nonlinear_arith);
    } else {
        assert(k * period == 0) by (nonlinear_arith)
            requires
                k == 0,
        ;
    }
}

/// Of the records that arrive between `lo_us` and `hi_us`, a logger with a
/// positive period flushes at most one per period, and one more: no more
/// than `(hi_us - lo_us) / period + 1`.
pub proof fn lemma_flush_count_bounded(
    logger: LoggerModel,
    times_us: Seq<nat>,
    lo_us: nat,
    hi_us: nat,
)
    requires
        logger.log_period_us > 0,
        forall|i: int| 0 <= i < times_us.len() ==> lo_us <= #[trigger] times_us[i] <= hi_us,
    ensures
        flush_times(logger, times_us).len() > 0 ==> lo_us <= hi_us && flush_times(
            logger,
            times_us,
        ).len() <= (hi_us - lo_us) / (logger.log_period_us as int) + 1,
{
    let all = flush_times(logger, times_us);
    if all.len() > 0 {
        let k = all.len() - 1;
        let period = logger.log_period_us as int;
        lemma_flush_span(logger, times_us, k);
        lemma_flushes_are_spaced(logger, times_us);
        assert(times_us.contains(all[0]));
        assert(times_us.contains(all[k]));
        assert(lo_us <= all[0]);
        assert(all[k] <= hi_us);
        assert(k <= (hi_us - lo_us) / period) by (nonlinear_arith)
            requires
                period > 0,
                k >= 0,
                k * period <= hi_us - lo_us,
        ;
    }
}

/// Decides which records are flushed.
#[derive(Debug)]
pub struct DataLogger {
    log_period_us: u64,
    last_flush_us: Option<u128>,
}

impl View for DataLogger {
    type V = LoggerModel;

    closed spec fn view(&self) -> LoggerModel {
        LoggerModel {
            log_period_us: self.log_period_us as nat,
            last_flush_us: match self.last_flush_us {
                None => None,
                Some(last_us) => Some(last_us as nat),
            },
        }
    }
}

impl DataLogger {
    /// A logger that has flushed nothing yet.
    pub fn new(log_period_us: u64) -> (logger: DataLogger)
        ensures
            logger@ == (LoggerModel { log_period_us: log_period_us as nat, last_flush_us: None }),
    {
        DataLogger { log_period_us, last_flush_us: None }
    }

    /// Takes the record of the tick at `app_time` and gives it back if it is
    /// to be flushed now.  A record that is not flushed is dropped.
    pub fn log(&mut self, record: &LogData, app_time: Duration) -> (flushed: Option<LogData>)
        ensures
            final(self)@ == old(self)@.after(span_micros(app_time) as nat),
            flushed == if old(self)@.flushes_at(span_micros(app_time) as nat) {
                Some(*record)
            } else {
                None::<LogData>
            },
    {
        let now_us: u128 = micros_of_span(app_time);
        let due: bool = self.log_period_us == 0 || match self.last_flush_us {
            None => true,
            Some(last_us) => last_us <= now_us && now_us - last_us >= self.log_period_us as u128,
        };
        if due {
            self.last_flush_us = Some(now_us);
            Some(*record)
        } else {
            None
        }
    }

    /// Microseconds between two flushed records.
    pub fn log_period_us(&self) -> (log_period_us: u64)
        ensures
            log_period_us == self@.log_period_us,
    {
        self.log_period_us
    }
}

} // verus!
