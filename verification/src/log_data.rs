//! The record of one tick.
//!
//! A block output is a 64-bit floating-point number.  The record carries it
//! as its bit pattern, which is all the engine needs: it moves outputs and
//! never computes with them.  Times are in microseconds.

use vstd::prelude::*;

verus! {

/// The record of one tick.  A field that the tick did not set is `None`.
#[derive(Debug, Clone, Copy, PartialEq, Eq)]
pub struct LogData {
    /// The state that ran.
    pub state_id: Option<&'static str>,
    /// When the record was taken: the application time of the tick, in
    /// microseconds.  The sink writes it in seconds.
    pub timestamp: Option<u64>,
    /// The application time of the tick, in microseconds.
    pub app_time_us: Option<u64>,
    /// The output of the sine wave block, as a bit pattern.
    pub sinewave1_66975_0: Option<u64>,
    /// The output of the triangle wave block, as a bit pattern.
    pub trianglewave1_66977_0: Option<u64>,
}

impl LogData {
    /// The record with no field set.
    pub open spec fn spec_unset() -> LogData {
        LogData {
            state_id: None,
            timestamp: None,
            app_time_us: None,
            sinewave1_66975_0: None,
            trianglewave1_66977_0: None,
        }
    }

    /// Sets the state that ran.
    pub fn state_id(&mut self, value: &'static str)
        ensures
            *final(self) == (LogData { state_id: Some(value), ..*old(self) }),
    {
        self.state_id = Some(value);
    }

    /// Sets the timestamp of the record, in microseconds.
    pub fn timestamp(&mut self, value: u64)
        ensures
            *final(self) == (LogData { timestamp: Some(value), ..*old(self) }),
    {
        self.timestamp = Some(value);
    }

    /// Sets the application time of the tick, in microseconds.
    pub fn app_time_us(&mut self, value: u64)
        ensures
            *final(self) == (LogData { app_time_us: Some(value), ..*old(self) }),
    {
        self.app_time_us = Some(value);
    }

    /// Sets the output of the sine wave block.
    pub fn sinewave1_66975_0(&mut self, value: u64)
        ensures
            *final(self) == (LogData { sinewave1_66975_0: Some(value), ..*old(self) }),
    {
        self.sinewave1_66975_0 = Some(value);
    }

    /// Sets the output of the triangle wave block.
    pub fn trianglewave1_66977_0(&mut self, value: u64)
        ensures
            *final(self) == (LogData { trianglewave1_66977_0: Some(value), ..*old(self) }),
    {
        self.trianglewave1_66977_0 = Some(value);
    }
}

impl Default for LogData {
    /// The record with no field set.
    fn default() -> (record: LogData)
        ensures
            record == LogData::spec_unset(),
    {
        LogData {
            state_id: None,
            timestamp: None,
            app_time_us: None,
            sinewave1_66975_0: None,
            trianglewave1_66977_0: None,
        }
    }
}

} // verus!
