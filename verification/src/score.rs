//! The score of a run, and what the minister thinks of it.

use vstd::prelude::*;
use crate::route::CIAMPINO;
use crate::units::DELTA_TO_METERS;
use crate::units::UNIT;

verus! {

/// How much each 1.0 left of the time budget is worth.
pub const SPEED_SCORE_MULTIPLIER: i64 = 15;

/// What a stop exactly at the station is worth.
pub const DISTANCE_SCORE: i64 = 1000;

/// The part of the score earned by being quick: the time budget that is left,
/// times the multiplier, rounded down to a whole number.
pub open spec fn speed_score(score_accumulator: int) -> int {
    score_accumulator * SPEED_SCORE_MULTIPLIER / (UNIT as int)
}

/// The score of a run that ended `distance_error` metres from the station with
/// `score_accumulator` left of the time budget: the speed score, plus a
/// thousand less the error, and never below zero nor above the largest `i32`.
pub open spec fn final_score_spec(score_accumulator: int, distance_error: int) -> int {
    let raw = speed_score(score_accumulator) + (DISTANCE_SCORE - distance_error);
    if raw < 0 {
        0
    } else if raw > i32::MAX {
        i32::MAX as int
    } else {
        raw
    }
}

/// Whether a train that travelled `delta` has stopped short of the station
/// by a metre or more.
pub open spec fn stops_short_spec(delta: int) -> bool {
    delta * DELTA_TO_METERS + UNIT <= CIAMPINO * UNIT
}

/// How far from the station a train has stopped that travelled `delta`, in
/// whole metres, rounded down, and the largest `i32` where that is too far to
/// hold.
pub open spec fn distance_error_spec(delta: int) -> int {
    let gap = delta * DELTA_TO_METERS - CIAMPINO * UNIT;
    let exact = (if gap < 0 { -gap } else { gap }) / (UNIT as int);
    if exact > i32::MAX {
        i32::MAX as int
    } else {
        exact
    }
}

/// Tells whether the train has stopped short of the station by a metre or more.
pub fn stops_short(delta: u64) -> (short: bool)
    ensures
        short == stops_short_spec(delta as int),
{
    let travelled: i128 = delta as i128 * 5;
    let target: i128 = 30000 * (UNIT as i128);
    assert(travelled == delta * DELTA_TO_METERS && target == CIAMPINO * UNIT);
    travelled + (UNIT as i128) <= target
}

/// Measures how far from the station the train has stopped.
pub fn distance_error(delta: u64) -> (error: i32)
    ensures
        error == distance_error_spec(delta as int),
        error >= 0,
{
    let travelled: i128 = delta as i128 * 5;
    let target: i128 = 30000 * (UNIT as i128);
    assert(travelled == delta * DELTA_TO_METERS && target == CIAMPINO * UNIT);
    let gap: i128 = if travelled < target {
        target - travelled
    } else {
        travelled - target
    };
    let exact: i128 = gap / (UNIT as i128);
    if exact > i32::MAX as i128 {
        i32::MAX
    } else {
        exact as i32
    }
}

/// Computes the score of a run from the time budget that is left, in fixed
/// point, and the distance in metres between the train and the station.
pub fn final_score(score_accumulator: i64, distance_error: i32) -> (score: i32)
    ensures
        score == final_score_spec(score_accumulator as int, distance_error as int),
        score >= 0,
{
    let product: i128 = score_accumulator as i128 * 15;
    assert(product == score_accumulator * SPEED_SCORE_MULTIPLIER);
    let speed: i128 = if product >= 0 {
        product / (UNIT as i128)
    } else {
        let up: i128 = (-product + (UNIT as i128 - 1)) / (UNIT as i128);
        proof {
            lemma_floor_of_negative(product as int, up as int);
        }
        -up
    };
    let raw: i128 = speed + (DISTANCE_SCORE as i128 - distance_error as i128);
    if raw < 0 {
        0
    } else if raw > i32::MAX as i128 {
        i32::MAX
    } else {
        raw as i32
    }
}

/// Rounding a negative quotient down is rounding its opposite up.
proof fn lemma_floor_of_negative(product: int, up: int)
    requires
        product < 0,
        up == (-product + (UNIT - 1)) / (UNIT as int),
    ensures
        product / (UNIT as int) == -up,
{
    let u = UNIT as int;
    let q = product / u;
    let r = product % u;
    assert(product == u * q + r && 0 <= r < u) by {
        vstd::arithmetic::div_mod::lemma_fundamental_div_mod(product, u);
        vstd::arithmetic::div_mod::lemma_mod_bound(product, u);
    }
    assert(-product + (u - 1) == u * (-q) + (u - 1 - r));
    assert((u * (-q) + (u - 1 - r)) / u == -q) by {
        vstd::arithmetic::div_mod::lemma_fundamental_div_mod_converse(
            -product + (u - 1),
            u,
            -q,
            u - 1 - r,
        );
    }
}

/// The minister's verdict on a stop `distance` metres from the station.
pub open spec fn rating_spec(distance: int) -> &'static str {
    if 0 <= distance <= 5 {
        "Minister plays your skin flute"
    } else if 6 <= distance <= 50 {
        "Minister gives you a promotion"
    } else if 51 <= distance <= 200 {
        "Minister gives you a handshake"
    } else if 201 <= distance <= 500 {
        "Minister is pleased"
    } else if 501 <= distance <= 1000 {
        "Minister is a bit upset"
    } else if 1001 <= distance <= 5000 {
        "Minister is pissed off"
    } else if 5001 <= distance <= 10000 {
        "Minister slaps your face"
    } else {
        "Minister fires you and your family"
    }
}

/// Says what the minister thinks of a stop `distance` metres from the station.
/// A negative distance is off the scale, like one of more than ten kilometres.
pub fn prime_minister_rating(distance: i32) -> (rating: &'static str)
    ensures
        rating == rating_spec(distance as int),
{
    if distance < 0 {
        "Minister fires you and your family"
    } else if distance <= 5 {
        "Minister plays your skin flute"
    } else if distance <= 50 {
        "Minister gives you a promotion"
    } else if distance <= 200 {
        "Minister gives you a handshake"
    } else if distance <= 500 {
        "Minister is pleased"
    } else if distance <= 1000 {
        "Minister is a bit upset"
    } else if distance <= 5000 {
        "Minister is pissed off"
    } else if distance <= 10000 {
        "Minister slaps your face"
    } else {
        "Minister fires you and your family"
    }
}

} // verus!
