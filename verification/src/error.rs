//! Errors that stop the engine before its first tick.

use vstd::prelude::*;

verus! {

/// A start-up setting from which no engine can be built.
#[derive(Debug, Clone, Copy, PartialEq, Eq, Structural)]
pub enum ConfigurationError {
    /// The tick rate is zero or negative, so there is no tick period.
    NonPositiveRate,
    /// The tick rate is so high that its period is shorter than one
    /// microsecond.
    PeriodTooShort,
}

impl ConfigurationError {
    /// A sentence for the operator.
    pub fn message(&self) -> (text: &'static str)
        ensures
            *self == ConfigurationError::NonPositiveRate ==> text@
                == "the tick rate must be greater than zero"@,
            *self == ConfigurationError::PeriodTooShort ==> text@
                == "the tick period is shorter than one microsecond"@,
    {
        match self {
            ConfigurationError::NonPositiveRate => "the tick rate must be greater than zero",
            ConfigurationError::PeriodTooShort => "the tick period is shorter than one microsecond",
        }
    }
}

} // verus!
