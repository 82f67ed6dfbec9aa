//! The decomposition of a non-negative span of whole seconds into weeks,
//! days, hours, minutes and seconds.

use vstd::prelude::*;

verus! {

/// Seconds in one minute.
pub const SECS_PER_MINUTE: u64 = 60;

/// Seconds in one hour.
pub const SECS_PER_HOUR: u64 = 3600;

/// Seconds in one day.
pub const SECS_PER_DAY: u64 = 86400;

/// Seconds in one week.
pub const SECS_PER_WEEK: u64 = 604800;

/// The finest unit a breakdown keeps: units finer than the selected one are
/// discarded (set to zero), not folded into a coarser unit.
#[derive(Clone, Copy, PartialEq, Eq, Structural, Debug)]
pub enum Precision {
    Weeks,
    Days,
    Hours,
    Minutes,
    Seconds,
}

/// A non-negative time span split into unit buckets, largest unit first.
/// Every field below `weeks` is strictly smaller than the next-larger
/// unit's conversion factor; `weeks` absorbs all remaining magnitude.
#[derive(Clone, Copy, PartialEq, Eq, Structural, Debug)]
pub struct DurationBreakdown {
    pub weeks: u64,
    pub days: u64,
    pub hours: u64,
    pub minutes: u64,
    pub seconds: u64,
}

impl DurationBreakdown {
    /// The invariant of a decomposition: each bucket except `weeks` holds
    /// strictly less than one of the next-larger unit.
    pub open spec fn well_formed(&self) -> bool {
        &&& self.days < 7
        &&& self.hours < 24
        &&& self.minutes < 60
        &&& self.seconds < 60
    }

    /// The span the breakdown stands for, recomposed in whole seconds.
    pub open spec fn total(&self) -> nat {
        (self.weeks * SECS_PER_WEEK + self.days * SECS_PER_DAY + self.hours * SECS_PER_HOUR
            + self.minutes * SECS_PER_MINUTE + self.seconds) as nat
    }

    /// Decomposes `total` seconds greedily, largest unit first: whole weeks,
    /// then whole days of the remainder, and so on down to seconds.
    pub fn from_seconds(total: u64) -> (b: DurationBreakdown)
        ensures
            b.well_formed(),
            b.total() == total as nat,
    {
        let weeks = total / SECS_PER_WEEK;
        let rem_w = total % SECS_PER_WEEK;
        let days = rem_w / SECS_PER_DAY;
        let rem_d = rem_w % SECS_PER_DAY;
        let hours = rem_d / SECS_PER_HOUR;
        let rem_h = rem_d % SECS_PER_HOUR;
        let minutes = rem_h / SECS_PER_MINUTE;
        let seconds = rem_h % SECS_PER_MINUTE;
        let b = DurationBreakdown { weeks, days, hours, minutes, seconds };
        proof {
            assert(total == weeks * SECS_PER_WEEK + rem_w);
            assert(rem_w == days * SECS_PER_DAY + rem_d);
            assert(rem_d == hours * SECS_PER_HOUR + rem_h);
            assert(rem_h == minutes * SECS_PER_MINUTE + seconds);
        }
        b
    }

    /// Recomposes the span in whole seconds. The bound on `total` is met by
    /// every breakdown `from_seconds` built.
    pub fn total_seconds(&self) -> (t: u64)
        requires
            self.total() <= u64::MAX,
        ensures
            t as nat == self.total(),
    {
        self.weeks * SECS_PER_WEEK + self.days * SECS_PER_DAY + self.hours * SECS_PER_HOUR
            + self.minutes * SECS_PER_MINUTE + self.seconds
    }

    /// A copy with every unit finer than `p` discarded (set to zero).
    pub fn with_precision(&self, p: Precision) -> (b: DurationBreakdown)
        ensures
            b.weeks == self.weeks,
            b.days == if p is Weeks { 0u64 } else { self.days },
            b.hours == if p is Weeks || p is Days { 0u64 } else { self.hours },
            b.minutes == if p is Weeks || p is Days || p is Hours { 0u64 } else { self.minutes },
            b.seconds == if p is Seconds { self.seconds } else { 0u64 },
            self.well_formed() ==> b.well_formed(),
    {
        let days = if matches!(p, Precision::Weeks) { 0 } else { self.days };
        let hours = if matches!(p, Precision::Weeks | Precision::Days) { 0 } else { self.hours };
        let minutes = if matches!(p, Precision::Weeks | Precision::Days | Precision::Hours) {
            0
        } else {
            self.minutes
        };
        let seconds = if matches!(p, Precision::Seconds) { self.seconds } else { 0 };
        DurationBreakdown { weeks: self.weeks, days, hours, minutes, seconds }
    }
}

/// The decomposition, stated mathematically: the unique well-formed
/// breakdown of a given span.
pub open spec fn spec_decompose(total: nat) -> DurationBreakdown {
    DurationBreakdown {
        weeks: (total / SECS_PER_WEEK as nat) as u64,
        days: ((total % SECS_PER_WEEK as nat) / SECS_PER_DAY as nat) as u64,
        hours: ((total % SECS_PER_DAY as nat) / SECS_PER_HOUR as nat) as u64,
        minutes: ((total % SECS_PER_HOUR as nat) / SECS_PER_MINUTE as nat) as u64,
        seconds: (total % SECS_PER_MINUTE as nat) as u64,
    }
}

/// Round trip: decomposing any second count that fits a machine word and
/// recomposing it gives the count back, and every bucket of the
/// decomposition stays within its unit's bound.
pub proof fn lemma_decompose_recompose(total: nat)
    requires
        total <= u64::MAX,
    ensures
        spec_decompose(total).well_formed(),
        spec_decompose(total).total() == total,
{
    let b = spec_decompose(total);
    assert(total % 604800 == (total % 604800) % 86400 + 86400 * ((total % 604800) / 86400))
        by (nonlinear_arith);
    assert((total % 604800) % 86400 == total % 86400) by (nonlinear_arith);
    assert(total % 86400 == (total % 86400) % 3600 + 3600 * ((total % 86400) / 3600))
        by (nonlinear_arith);
    assert((total % 86400) % 3600 == total % 3600) by (nonlinear_arith);
    assert(total % 3600 == (total % 3600) % 60 + 60 * ((total % 3600) / 60)) by (nonlinear_arith);
    assert((total % 3600) % 60 == total % 60) by (nonlinear_arith);
    assert(total == 604800 * (total / 604800) + total % 604800) by (nonlinear_arith);
}

/// `from_seconds` computes exactly `spec_decompose`.
pub proof fn lemma_from_seconds_unique(b: DurationBreakdown, total: u64)
    requires
        b.well_formed(),
        b.total() == total as nat,
    ensures
        b == spec_decompose(total as nat),
{
    lemma_decompose_recompose(total as nat);
    let c = spec_decompose(total as nat);
    assert(b.weeks == c.weeks && b.days == c.days && b.hours == c.hours && b.minutes == c.minutes
        && b.seconds == c.seconds) by (nonlinear_arith)
        requires
            b.well_formed(),
            c.well_formed(),
            b.total() == total as nat,
            c.total() == total as nat,
    ;
}

} // verus!
