//! Small helpers: clamping and the tick counter that paces the transitions.

use vstd::prelude::*;
use vstd::std_specs::cmp::PartialOrdIs;
use vstd::std_specs::cmp::PartialOrdSpec;

verus! {

/// What `clamp` returns, for a type whose `<` follows its specification.
pub open spec fn clamp_spec<T: PartialOrd>(input: T, min: T, max: T) -> T {
    if input.is_lt(&min) {
        min
    } else if input.is_gt(&max) {
        max
    } else {
        input
    }
}

/// Brings `input` into the range from `min` to `max`: a value below `min`
/// becomes `min`, one above `max` becomes `max`, any other is returned as it is.
///
/// The result is always one of the three arguments. Which one is stated for
/// every type whose `<` and `>` follow its specification, as those of the
/// integers do.
pub fn clamp<T: PartialOrd>(input: T, min: T, max: T) -> (r: T)
    ensures
        r == input || r == min || r == max,
        T::obeys_partial_cmp_spec() ==> r == clamp_spec(input, min, max),
{
    if input < min {
        min
    } else if input > max {
        max
    } else {
        input
    }
}

/// The quotient of `a` by `b`, rounded towards zero.
pub open spec fn quotient_towards_zero(a: int, b: int) -> int {
    let size = (if a < 0 { -a } else { a }) / (if b < 0 { -b } else { b });
    if (a < 0) == (b < 0) {
        size
    } else {
        -size
    }
}

/// The nearest `i32` to an integer.
pub open spec fn nearest_i32(n: int) -> int {
    if n < i32::MIN {
        i32::MIN as int
    } else if n > i32::MAX {
        i32::MAX as int
    } else {
        n
    }
}

/// A ratio of two counts, standing for the real number `numerator / denominator`.
///
/// A timer reports its progress as one, so that a caller can scale a length
/// by it without leaving integers.
#[derive(Clone, Copy, Debug, PartialEq, Eq)]
pub struct Fraction {
    pub numerator: i32,
    pub denominator: i32,
}

impl Fraction {
    /// Whether the fraction has reached one: `numerator / denominator >= 1`.
    pub open spec fn is_complete(self) -> bool {
        if self.denominator > 0 {
            self.numerator >= self.denominator
        } else {
            self.numerator <= self.denominator
        }
    }

    /// The part of `length` that the fraction makes: `length * numerator /
    /// denominator`, rounded towards zero, and the nearest `i32` where that
    /// is out of range.
    pub open spec fn part_of(self, length: int) -> int {
        nearest_i32(quotient_towards_zero(length * self.numerator, self.denominator as int))
    }

    /// Tells whether the fraction is at least one. A fraction over zero has no
    /// value, so the denominator must not be zero.
    pub fn complete(&self) -> (r: bool)
        requires
            self.denominator != 0,
        ensures
            r == self.is_complete(),
    {
        if self.denominator > 0 {
            self.numerator >= self.denominator
        } else {
            self.numerator <= self.denominator
        }
    }

    /// Scales a length by the fraction. A fraction over zero has no value, so
    /// the denominator must not be zero.
    pub fn of(&self, length: i32) -> (part: i32)
        requires
            self.denominator != 0,
        ensures
            part == self.part_of(length as int),
    {
        assert(-0x4000_0000_0000_0000 < length * self.numerator <= 0x4000_0000_0000_0000)
            by (nonlinear_arith)
            requires
                -0x8000_0000 <= length < 0x8000_0000,
                -0x8000_0000 <= self.numerator < 0x8000_0000,
        ;
        let product: i64 = length as i64 * self.numerator as i64;
        let top: u64 = if product < 0 {
            (-product) as u64
        } else {
            product as u64
        };
        let bottom: u64 = if self.denominator < 0 {
            (-(self.denominator as i64)) as u64
        } else {
            self.denominator as u64
        };
        let size: u64 = top / bottom;
        if (product < 0) == (self.denominator < 0) {
            if size > i32::MAX as u64 {
                i32::MAX
            } else {
                size as i32
            }
        } else {
            if size > i32::MAX as u64 + 1 {
                i32::MIN
            } else {
                (-(size as i64)) as i32
            }
        }
    }
}

/// What a `Timer` holds, as contracts see it.
pub struct TimerView {
    /// The count so far.
    pub current: i32,
    /// The count at which the timer is done.
    pub end: i32,
    /// Whether the timer has been set going.
    pub started: bool,
    /// Whether the count has reached `end`. Once true it stays true.
    pub reached: bool,
}

impl TimerView {
    /// The timer after one call of `step`. A timer that was never started, or
    /// that is done, stays as it is. A running one counts one up, stopping at
    /// the largest `i32`, and is done as soon as the count is `end` or more.
    pub open spec fn step(self) -> TimerView {
        if !self.started || self.reached {
            self
        } else {
            let current = if self.current < i32::MAX {
                (self.current + 1) as i32
            } else {
                self.current
            };
            TimerView { current, reached: current >= self.end, ..self }
        }
    }

    /// What a call of `step` on this timer returns: whether it is done after it.
    pub open spec fn step_result(self) -> bool {
        self.started && self.step().reached
    }

    /// The timer after `n` calls of `step`.
    pub open spec fn steps(self, n: nat) -> TimerView
        decreases n,
    {
        if n == 0 {
            self
        } else {
            self.step().steps((n - 1) as nat)
        }
    }
}

/// A counter of ticks that paces a transition or an animation.
///
/// It counts from a start value up to `end`, one per `step`, once it has been
/// started, and latches when it gets there.
#[derive(Clone, Copy, Debug, PartialEq, Eq)]
pub struct Timer {
    current: i32,
    end: i32,
    started: bool,
    reached: bool,
}

impl View for Timer {
    type V = TimerView;

    closed spec fn view(&self) -> TimerView {
        TimerView {
            current: self.current,
            end: self.end,
            started: self.started,
            reached: self.reached,
        }
    }
}

impl Timer {
    /// A timer that counts from `start` to `end`. With `auto_start` it runs
    /// from the first `step`, else only after `start` has been called.
    #[inline(always)]
    pub fn new(start: i32, end: i32, auto_start: bool) -> (timer: Self)
        ensures
            timer@ == (TimerView { current: start, end, started: auto_start, reached: false }),
    {
        Self { current: start, end, started: auto_start, reached: false }
    }

    /// Sets the timer going. Starting a started timer changes nothing.
    #[inline(always)]
    pub fn start(&mut self)
        ensures
            final(self)@ == (TimerView { started: true, ..old(self)@ }),
    {
        self.started = true;
    }

    /// The count so far.
    pub fn get_value(&self) -> (value: i32)
        ensures
            value == self@.current,
    {
        self.current
    }

    /// The progress of the timer, as the exact ratio of the count to `end`.
    /// It is a number only for a timer whose `end` is not zero.
    pub fn get_percentage(&self) -> (ratio: Fraction)
        ensures
            ratio.numerator == self@.current,
            ratio.denominator == self@.end,
    {
        Fraction { numerator: self.current, denominator: self.end }
    }

    /// Counts one tick and tells whether the timer is done.
    ///
    /// A timer that was never started does not count and returns `false`. One
    /// that is done does not count either and returns `true` from then on.
    pub fn step(&mut self) -> (done: bool)
        ensures
            final(self)@ == old(self)@.step(),
            done == old(self)@.step_result(),
    {
        if !self.started {
            return false;
        }
        if self.reached {
            return true;
        }
        if self.current < i32::MAX {
            self.current += 1;
        }
        if self.current >= self.end {
            self.reached = true;
            return true;
        }
        false
    }
}

/// A call of `step` that returned `true` is final: the next call returns
/// `true` as well, and leaves the timer, and so its count, as it was.
pub proof fn lemma_step_sticky(timer: TimerView)
    requires
        timer.step_result(),
    ensures
        timer.step().step_result(),
        timer.step().step() == timer.step(),
{
}

/// Once `step` has returned `true`, every later call returns `true` too, and
/// the count no longer changes, however many calls follow.
pub proof fn lemma_step_sticky_forever(timer: TimerView, n: nat)
    requires
        timer.step_result(),
    ensures
        timer.step().steps(n) == timer.step(),
        timer.step().steps(n).step_result(),
        timer.step().steps(n).current == timer.step().current,
    decreases n,
{
    if n > 0 {
        lemma_step_sticky(timer);
        lemma_step_sticky_forever(timer, (n - 1) as nat);
        assert(timer.step().steps(n) == timer.step().step().steps((n - 1) as nat));
    }
}

/// The count never goes down, and a timer that was never started never moves.
pub proof fn lemma_step_monotonic(timer: TimerView)
    ensures
        timer.step().current >= timer.current,
        timer.step().end == timer.end,
        timer.step().started == timer.started,
        timer.reached ==> timer.step().reached,
        !timer.started ==> timer.step() == timer && !timer.step_result(),
{
}

} // verus!
