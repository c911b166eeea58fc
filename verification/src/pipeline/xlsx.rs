//! Writing Excel files: what a cell holds.
//!
//! A worksheet takes whole numbers as signed 64-bit integers and points in
//! time as date-times; what does not fit is written as text.

use vstd::prelude::*;

verus! {

pub struct WriteXlsxResult {}

/// The unit in which a timestamp column counts time since the epoch.
#[derive(Clone, Copy, Debug, PartialEq, Eq, Structural)]
pub enum TimestampUnit {
    Second,
    Millisecond,
    Microsecond,
    Nanosecond,
}

/// A point in time as a date-time is made from it: by whole seconds, or by
/// whole milliseconds since the epoch.
#[derive(Clone, Copy, Debug, PartialEq, Eq, Structural)]
pub enum Instant {
    Seconds(i64),
    Millis(i64),
}

/// The quotient of `a` by a positive `b`, rounded towards zero.
pub open spec fn quotient_towards_zero(a: int, b: int) -> int {
    if a >= 0 {
        a / b
    } else {
        -((-a) / b)
    }
}

/// The point in time that a timestamp of the given unit stands for: seconds
/// and milliseconds as they are, finer units as milliseconds, what is left of
/// a millisecond being dropped.
pub open spec fn instant_of(unit: TimestampUnit, value: i64) -> Instant {
    match unit {
        TimestampUnit::Second => Instant::Seconds(value),
        TimestampUnit::Millisecond => Instant::Millis(value),
        TimestampUnit::Microsecond => Instant::Millis(
            quotient_towards_zero(value as int, 1000) as i64,
        ),
        TimestampUnit::Nanosecond => Instant::Millis(
            quotient_towards_zero(value as int, 1_000_000) as i64,
        ),
    }
}

fn divide_towards_zero(value: i64, by: i64) -> (q: i64)
    requires
        by > 1,
    ensures
        q == quotient_towards_zero(value as int, by as int),
{
    if value >= 0 {
        value / by
    } else {
        // `-value` may be out of range, `-(value + 1)` is not.
        let below: i64 = -(value + 1);
        let whole: i64 = below / by;
        let rest: i64 = below % by;
        assert(below == whole * by + rest) by (nonlinear_arith)
            requires
                below >= 0,
                by > 1,
                whole == below / by,
                rest == below % by,
        ;
        if rest == by - 1 {
            assert((below + 1) / (by as int) == whole + 1) by (nonlinear_arith)
                requires
                    below == whole * by + rest,
                    rest == by - 1,
                    by > 1,
                    whole >= 0,
            ;
            assert(whole < i64::MAX) by (nonlinear_arith)
                requires
                    below == whole * by + rest,
                    rest == by - 1,
                    by > 1,
                    whole >= 0,
                    below <= i64::MAX,
            ;
            -(whole + 1)
        } else {
            assert((below + 1) / (by as int) == whole) by (nonlinear_arith)
                requires
                    below == whole * by + rest,
                    0 <= rest < by - 1,
                    by > 1,
                    whole >= 0,
            ;
            -whole
        }
    }
}

/// The point in time that a timestamp of the given unit stands for.
pub fn timestamp_instant(unit: TimestampUnit, value: i64) -> (instant: Instant)
    ensures
        instant == instant_of(unit, value),
{
    match unit {
        TimestampUnit::Second => Instant::Seconds(value),
        TimestampUnit::Millisecond => Instant::Millis(value),
        TimestampUnit::Microsecond => Instant::Millis(divide_towards_zero(value, 1000)),
        TimestampUnit::Nanosecond => Instant::Millis(divide_towards_zero(value, 1_000_000)),
    }
}

/// An unsigned number as a worksheet takes it: as a signed integer where it
/// is one, and not at all where it is too large, in which case it is written
/// as text.
pub fn unsigned_cell(value: u64) -> (cell: Option<i64>)
    ensures
        match cell {
            Some(n) => n == value,
            None => value > i64::MAX,
        },
{
    if value <= i64::MAX as u64 {
        Some(value as i64)
    } else {
        None
    }
}

} // verus!
