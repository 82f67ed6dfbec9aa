//! The remaining span until a target instant, and the computation one
//! refresh tick performs on it.

use vstd::prelude::*;
use crate::breakdown::{DurationBreakdown, Precision, lemma_from_seconds_unique, spec_decompose};
use crate::render::spec_render_hide_zeros;

verus! {

/// Why no countdown message could be produced.
#[derive(Clone, Copy, PartialEq, Eq, Structural, Debug)]
pub enum SpanError {
    /// The target instant lies strictly before the current one. A negative
    /// span is an error, never clamped to zero.
    TargetPassed,
}

/// Whole seconds from `now` up to `target`, both counted from one common
/// epoch. Succeeds exactly when the target has not passed.
pub fn span_between(now: i64, target: i64) -> (r: Result<u64, SpanError>)
    ensures
        now <= target ==> r == Ok::<u64, SpanError>((target - now) as u64),
        now > target ==> r == Err::<u64, SpanError>(SpanError::TargetPassed),
{
    if now <= target {
        let d: i128 = (target as i128) - (now as i128);
        Ok(d as u64)
    } else {
        Err(SpanError::TargetPassed)
    }
}

/// One refresh tick's computation: the span from `now` to `target`,
/// decomposed down to seconds and rendered with zero-valued units hidden.
/// Succeeds exactly when the target has not passed.
pub fn remaining_message(now: i64, target: i64) -> (r: Result<String, SpanError>)
    ensures
        now > target ==> r == Err::<String, SpanError>(SpanError::TargetPassed),
        now <= target ==> (r matches Ok(s) && s@ == spec_render_hide_zeros(
            spec_decompose((target - now) as nat),
        )),
{
    match span_between(now, target) {
        Ok(secs) => {
            let b = DurationBreakdown::from_seconds(secs).with_precision(Precision::Seconds);
            proof {
                lemma_from_seconds_unique(b, secs);
            }
            Ok(b.as_string_hide_zeros())
        },
        Err(e) => Err(e),
    }
}

} // verus!
