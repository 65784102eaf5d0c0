//! Spans of time as the standard library holds them.

use core::time::Duration;
use vstd::prelude::*;

verus! {

/// The whole microseconds in a span of time: what `Duration::as_micros`
/// returns for it.
pub uninterp spec fn span_micros(span: Duration) -> u128;

/// The span of `micros` microseconds: what `Duration::from_micros` returns
/// for that number.
pub uninterp spec fn span_of_micros(micros: u64) -> Duration;

/// Calls `Duration::from_micros`.  The span it makes is the span of `micros`
/// microseconds, and `micros` is what `Duration::as_micros` reads back from
/// it.
#[verifier::external_body]
pub(crate) fn span_from_micros(micros: u64) -> (span: Duration)
    ensures
        span == span_of_micros(micros),
        span_micros(span) == micros,
{
    Duration::from_micros(micros)
}

/// Calls `Duration::as_micros`: the whole microseconds that the span holds.
#[verifier::external_body]
pub(crate) fn micros_of_span(span: Duration) -> (micros: u128)
    ensures
        micros == span_micros(span),
{
    span.as_micros()
}

} // verus!
