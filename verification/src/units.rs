//! Fixed-point units.
//!
//! Speeds, distances travelled, turns of the crank and the time budget are
//! real numbers. They are held as integers that count fractions of one: `UNIT`
//! of them make 1.0. The scale is chosen so that every constant of the game is
//! a whole number of units. A host that measures in floating point multiplies
//! a reading by `UNIT` and drops the fraction.

use vstd::prelude::*;

verus! {

/// How many units make 1.0.
pub const UNIT: i64 = 1_500_000;

/// The smallest step that can be told from zero.
pub const EPSILON: i64 = 1;

/// How many metres the train covers for each 1.0 of travel.
pub const DELTA_TO_METERS: i64 = 5;

/// The whole metres in a distance travelled: `delta * DELTA_TO_METERS`, rounded
/// down, and the largest `i32` where that is too large to hold.
pub open spec fn meters(delta: int) -> int {
    let exact = delta * DELTA_TO_METERS / (UNIT as int);
    if exact > i32::MAX {
        i32::MAX as int
    } else {
        exact
    }
}

/// Reads a distance travelled in whole metres.
pub fn to_meters(delta: u64) -> (m: i32)
    ensures
        m == meters(delta as int),
        m >= 0,
{
    let exact: u128 = delta as u128 * 5 / (UNIT as u128);
    assert(exact == delta * DELTA_TO_METERS / (UNIT as int));
    if exact > i32::MAX as u128 {
        i32::MAX
    } else {
        exact as i32
    }
}

/// Where a value stands within a cycle of `period` whole ones, as a whole
/// number: the value modulo the period, rounded down.
pub open spec fn cycle_position(value: int, period: int) -> int {
    value % (period * UNIT) / (UNIT as int)
}

/// Finds where a value stands within a cycle of `period` whole ones.
pub fn cycle(value: u128, period: u16) -> (whole: i32)
    requires
        period > 0,
    ensures
        whole == cycle_position(value as int, period as int),
        0 <= whole < period,
{
    let span: u128 = period as u128 * 1_500_000;
    assert(span == period * UNIT);
    let rest: u128 = value % span;
    let whole: u128 = rest / (UNIT as u128);
    assert(whole < period) by (nonlinear_arith)
        requires
            rest < period * 1_500_000,
            whole == rest / 1_500_000,
    ;
    whole as i32
}

} // verus!
