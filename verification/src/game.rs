//! The simulation: one state, advanced by one tick at a time.
//!
//! `GameState` is the simulation as mathematics: what a tick does to every
//! field is written down in `GameState::tick`, one rule after the other.
//! `MyGame` is the simulation as it runs, and `MyGame::update` is proved to do
//! to it exactly what `tick` says.

use vstd::prelude::*;
use rand::rngs::SmallRng;
use crate::draw::draw_explosion;
use crate::draw::is_explosion_picture;
use crate::draw::screen_shake;
use crate::draw::DrawCmd;
use crate::draw::Point;
use crate::rng::seeded;
use crate::route::distance_to_stop;
use crate::route::standard_stops;
use crate::route::stop_after_query;
use crate::route::RouteStop;
use crate::route::RouteTable;
use crate::route::Train;
use crate::score::distance_error;
use crate::score::distance_error_spec;
use crate::score::final_score;
use crate::score::final_score_spec;
use crate::units::meters;
use crate::units::to_meters;
use crate::units::EPSILON;
use crate::units::UNIT;
use crate::utils::clamp;
use crate::utils::Fraction;
use crate::utils::Timer;
use crate::utils::TimerView;

verus! {

/// How much travel each 1.0 of speed adds in a tick.
pub const SPEED: i64 = 5;

/// How many whole degrees of crank add 1.0 of speed.
pub const CRANK_SENSITIVITY: i64 = 1500;

/// The speed that the train loses in each tick once the crank has been moved: 0.005.
pub const INERTIA: i64 = 7_500;

/// The time budget that a tick of running costs: 0.02.
pub const TICK_PENALTY: i64 = 30_000;

/// The time budget at the start of a run: 100.0.
pub const START_SCORE: i64 = 150_000_000;

/// The speed at which the train idles through the intro: 0.5.
pub const START_VELOCITY: i64 = 750_000;

/// The train explodes at any speed above this one, which lies just under 1.0.
pub const EXPLOSION_THRESHOLD: i64 = UNIT - EPSILON;

/// The train has arrived at any speed below this one, which lies just above zero.
pub const ARRIVAL_THRESHOLD: i64 = EPSILON;

/// How many ticks the intro takes once the player has started it.
pub const INTRO_TICKS: i32 = 20;

/// How many ticks an explosion lasts.
pub const EXPLOSION_TICKS: i32 = 40;

/// How many ticks the closing screen takes to unfold.
pub const ARRIVAL_TICKS: i32 = 20;

/// The amount by which the screen shakes while the train explodes.
pub const EXPLOSION_SHAKE: usize = 20;

/// The mode that the simulation is in.
#[derive(Clone, Copy, Debug, PartialEq, Eq, Structural)]
pub enum Phase {
    /// The intro plays and the train idles.
    Start,
    /// The player drives the train.
    Running,
    /// The train has come to a halt. The run is over and has its score.
    Arrived,
    /// The train went too fast. The run is over.
    Exploded,
}

/// What the host samples for one tick.
#[derive(Clone, Copy, Debug, PartialEq, Eq)]
pub struct Input {
    /// How far the crank was turned since the last tick, in degrees, in fixed
    /// point. Turning backwards gives a negative number, which drives nothing.
    pub crank_delta: i64,
    /// Whether button A is down.
    pub button_a: bool,
    /// Whether button B is down.
    pub button_b: bool,
    /// The host's clock, in seconds. It seeds the random source of the run
    /// that a restart begins, and is read for nothing else.
    pub clock: u64,
}

/// The simulation as contracts see it: every field that a tick reads or
/// writes. The random source is not among them, for it decides nothing here.
pub struct GameState {
    pub phase: Phase,
    /// The travel so far, in fixed point.
    pub delta: int,
    /// The speed of the train, in fixed point.
    pub velocity: int,
    /// The number of the stop that the train looks out for.
    pub current_stop: int,
    /// What is left of the time budget, in fixed point.
    pub score: int,
    /// The score of the run, from the tick on which the train arrives.
    pub final_score: Option<int>,
    pub intro_timer: TimerView,
    pub explosion_timer: TimerView,
    pub arrival_timer: TimerView,
    /// Whether the crank has been moved in this run while the train was running.
    pub crank_ever_moved: bool,
    pub route: Seq<RouteStop>,
}

/// The speed that a turn of the crank adds: nothing for a turn backwards, else
/// the turn over the sensitivity, rounded down.
pub open spec fn crank_gain(crank_delta: int) -> int {
    if crank_delta > 0 {
        crank_delta / (CRANK_SENSITIVITY as int)
    } else {
        0
    }
}

/// The travel after one more tick at the given speed. The count stops at the
/// largest `u64`.
pub open spec fn travelled(delta: int, velocity: int) -> int {
    let sum = delta + velocity * SPEED;
    if sum > u64::MAX {
        u64::MAX as int
    } else {
        sum
    }
}

/// The time budget after one more tick of running. The count stops at the
/// smallest `i64`.
pub open spec fn penalized(score: int) -> int {
    let rest = score - TICK_PENALTY;
    if rest < i64::MIN {
        i64::MIN as int
    } else {
        rest
    }
}

/// The speed after a tick of running: the crank adds to it, then inertia takes
/// from it if the crank has ever been moved, and it never falls below zero.
pub open spec fn driven(velocity: int, crank_delta: int, crank_ever_moved: bool) -> int {
    let pushed = velocity + crank_gain(crank_delta);
    let slowed = if crank_ever_moved {
        pushed - INERTIA
    } else {
        pushed
    };
    if slowed < 0 {
        0
    } else {
        slowed
    }
}

/// How hard the screen shakes at the given speed: 4 above 0.95, 2 above 0.9,
/// 1 above 0.8, and not at all below.
pub open spec fn shake_magnitude_spec(velocity: int) -> int {
    if velocity > 1_425_000 {
        4
    } else if velocity > 1_350_000 {
        2
    } else if velocity > 1_200_000 {
        1
    } else {
        0
    }
}

impl GameState {
    /// The simulation at the start of a run.
    pub open spec fn fresh() -> GameState {
        GameState {
            phase: Phase::Start,
            delta: 0,
            velocity: START_VELOCITY as int,
            current_stop: 0,
            score: START_SCORE as int,
            final_score: None,
            intro_timer: TimerView { current: 0, end: INTRO_TICKS, started: false, reached: false },
            explosion_timer: TimerView {
                current: 0,
                end: EXPLOSION_TICKS,
                started: true,
                reached: false,
            },
            arrival_timer: TimerView {
                current: 0,
                end: ARRIVAL_TICKS,
                started: true,
                reached: false,
            },
            crank_ever_moved: false,
            route: standard_stops(),
        }
    }

    /// Whether the run is over, one way or the other.
    pub open spec fn is_over(self) -> bool {
        self.phase == Phase::Arrived || self.phase == Phase::Exploded
    }

    /// Whether this tick starts the game anew: the run is over and button B is
    /// down. No other rule applies on such a tick.
    pub open spec fn restarts(self, input: Input) -> bool {
        self.is_over() && input.button_b
    }

    /// The metres travelled.
    pub open spec fn position(self) -> int {
        meters(self.delta)
    }

    /// The first rule of a tick: the train moves.
    ///
    /// During the intro it idles along, and button A sets the intro's timer
    /// going. While it runs, the travel grows by the speed, the crank and
    /// inertia change the speed, and the time budget shrinks. Then the speed
    /// decides: above the explosion threshold the train explodes, below the
    /// arrival threshold it has arrived, and the run gets its score. Once the
    /// run is over nothing moves.
    pub open spec fn moved(self, input: Input) -> GameState {
        match self.phase {
            Phase::Start => GameState {
                delta: travelled(self.delta, self.velocity),
                intro_timer: if input.button_a {
                    TimerView { started: true, ..self.intro_timer }
                } else {
                    self.intro_timer
                },
                ..self
            },
            Phase::Running => {
                let delta = travelled(self.delta, self.velocity);
                let velocity = driven(
                    self.velocity,
                    input.crank_delta as int,
                    self.crank_ever_moved,
                );
                let score = penalized(self.score);
                if velocity > EXPLOSION_THRESHOLD {
                    GameState { phase: Phase::Exploded, delta, velocity, score, ..self }
                } else if velocity < ARRIVAL_THRESHOLD {
                    GameState {
                        phase: Phase::Arrived,
                        delta,
                        velocity,
                        score,
                        final_score: Some(final_score_spec(score, distance_error_spec(delta))),
                        ..self
                    }
                } else {
                    GameState { delta, velocity, score, ..self }
                }
            },
            Phase::Arrived | Phase::Exploded => self,
        }
    }

    /// The second rule: the distance to the next stop is read, and reading it
    /// moves the train on to the following stop once the next one is reached.
    pub open spec fn queried(self) -> GameState {
        GameState {
            current_stop: stop_after_query(self.route, self.current_stop, self.position()),
            ..self
        }
    }

    /// Whether the explosion is still under way after this tick's step of its
    /// timer.
    pub open spec fn is_exploding(self) -> bool {
        self.phase == Phase::Exploded && !self.explosion_timer.step_result()
    }

    /// The third rule: the timer of the current phase counts.
    ///
    /// After an arrival the closing timer counts. After an explosion its own
    /// timer counts, and the closing timer once that one is done. During the
    /// intro its timer counts, and when it is done the run begins: the train
    /// is put back to the start of the line and the phase is `Running`.
    pub open spec fn animated(self) -> GameState {
        match self.phase {
            Phase::Start => {
                if self.intro_timer.step_result() {
                    GameState {
                        phase: Phase::Running,
                        delta: 0,
                        current_stop: 0,
                        intro_timer: self.intro_timer.step(),
                        ..self
                    }
                } else {
                    GameState { intro_timer: self.intro_timer.step(), ..self }
                }
            },
            Phase::Running => self,
            Phase::Arrived => GameState { arrival_timer: self.arrival_timer.step(), ..self },
            Phase::Exploded => {
                if self.explosion_timer.step_result() {
                    GameState {
                        explosion_timer: self.explosion_timer.step(),
                        arrival_timer: self.arrival_timer.step(),
                        ..self
                    }
                } else {
                    GameState { explosion_timer: self.explosion_timer.step(), ..self }
                }
            },
        }
    }

    /// The last rule: a turn of the crank while the train runs is remembered
    /// for the rest of the run.
    pub open spec fn latched(self, input: Input) -> GameState {
        if self.phase == Phase::Running && input.crank_delta > 0 {
            GameState { crank_ever_moved: true, ..self }
        } else {
            self
        }
    }

    /// One tick. A restart replaces the whole state by a fresh one. Any other
    /// tick applies the four rules in their order.
    pub open spec fn tick(self, input: Input) -> GameState {
        if self.restarts(input) {
            Self::fresh()
        } else {
            self.moved(input).queried().animated().latched(input)
        }
    }

    /// The state that the frame of a tick shows: the fresh one on a restart,
    /// else the state as the train has moved, before the timers count.
    pub open spec fn shown(self, input: Input) -> GameState {
        if self.restarts(input) {
            Self::fresh()
        } else {
            self.moved(input)
        }
    }

    /// The state after one tick for each input, in their order.
    pub open spec fn run(self, inputs: Seq<Input>) -> GameState
        decreases inputs.len(),
    {
        if inputs.len() == 0 {
            self
        } else {
            self.run(inputs.drop_last()).tick(inputs.last())
        }
    }

    /// What holds of every state that a run can reach.
    pub open spec fn wf(self) -> bool {
        &&& self.route == standard_stops()
        &&& 0 <= self.current_stop < self.route.len()
        &&& 0 <= self.delta <= u64::MAX
        &&& i64::MIN <= self.score <= i64::MAX
        &&& 0 <= self.velocity <= EXPLOSION_THRESHOLD + i64::MAX / CRANK_SENSITIVITY
        &&& self.intro_timer.end == INTRO_TICKS
        &&& self.explosion_timer.end == EXPLOSION_TICKS
        &&& self.arrival_timer.end == ARRIVAL_TICKS
        &&& 0 <= self.intro_timer.current <= INTRO_TICKS
        &&& 0 <= self.explosion_timer.current <= EXPLOSION_TICKS
        &&& 0 <= self.arrival_timer.current <= ARRIVAL_TICKS
        &&& self.intro_timer.reached == (self.intro_timer.current == INTRO_TICKS)
        &&& self.explosion_timer.reached == (self.explosion_timer.current == EXPLOSION_TICKS)
        &&& self.arrival_timer.reached == (self.arrival_timer.current == ARRIVAL_TICKS)
        &&& self.explosion_timer.started
        &&& self.arrival_timer.started
        &&& self.intro_timer.reached == (self.phase != Phase::Start)
        &&& self.intro_timer.current > 0 ==> self.intro_timer.started
        &&& self.phase == Phase::Start ==> self.velocity == START_VELOCITY && !self.crank_ever_moved
        &&& self.phase == Phase::Running ==> self.velocity <= EXPLOSION_THRESHOLD
        &&& self.phase == Phase::Running && !self.crank_ever_moved ==> self.velocity
            >= START_VELOCITY
        &&& self.phase == Phase::Arrived ==> self.velocity < ARRIVAL_THRESHOLD
            && self.crank_ever_moved
        &&& self.phase == Phase::Exploded ==> self.velocity > EXPLOSION_THRESHOLD
        &&& self.phase != Phase::Exploded ==> self.explosion_timer.current == 0
        &&& !self.is_over() ==> self.arrival_timer.current == 0
        &&& self.final_score is Some <==> self.phase == Phase::Arrived
        &&& self.final_score matches Some(s) ==> 0 <= s <= i32::MAX
    }
}

/// A fresh state is well formed.
pub proof fn lemma_fresh_wf()
    ensures
        GameState::fresh().wf(),
{
    crate::route::lemma_standard_stops_is_route();
}

/// A tick keeps a well-formed state well formed.
pub proof fn lemma_tick_wf(state: GameState, input: Input)
    requires
        state.wf(),
    ensures
        state.tick(input).wf(),
{
    crate::route::lemma_standard_stops_is_route();
    lemma_moved_wf(state, input);
}

/// The first rule keeps a well-formed state well formed.
pub proof fn lemma_moved_wf(state: GameState, input: Input)
    requires
        state.wf(),
    ensures
        state.moved(input).wf(),
{
    crate::route::lemma_standard_stops_is_route();
    let crank = input.crank_delta as int;
    assert(0 <= crank_gain(crank) <= i64::MAX / CRANK_SENSITIVITY) by {
        if crank > 0 {
            vstd::arithmetic::div_mod::lemma_div_is_ordered(crank, i64::MAX as int, 1500);
            vstd::arithmetic::div_mod::lemma_div_pos_is_pos(crank, 1500);
        }
    }
}

/// What one tick hands to the renderer: the frame to draw, as plain values.
#[derive(Debug, PartialEq, Eq)]
pub struct RenderView {
    /// The phase that the frame shows. On the tick that ends the intro this is
    /// still `Start`, while the simulation itself has entered `Running`.
    pub phase: Phase,
    /// The speed of the train, in fixed point. Never negative.
    pub velocity: i64,
    /// The travel so far, in fixed point.
    pub cumulative_delta: u64,
    /// The name of the stop that the train has last passed, empty before the first.
    pub current_stop_name: &'static str,
    /// The name of the stop that the train looks out for.
    pub next_stop_name: &'static str,
    /// The metres to the stop that the train looked out for as the tick began.
    pub next_stop_distance: i32,
    /// Whether the train has left the last real stop behind.
    pub distance_is_out_of_bounds: bool,
    /// How far the intro has come, before this tick's count.
    pub intro_percentage: Fraction,
    /// The count of the explosion's timer, after this tick's count.
    pub explosion_tick: i32,
    /// How far the closing screen has unfolded, before this tick's count.
    pub arrival_percentage: Fraction,
    /// How hard the ride shakes the screen. Zero unless the train is running.
    pub shake_magnitude: usize,
    /// Where to move the screen to for this frame.
    pub shake_offset: Point,
    /// The debris to draw while the train explodes, empty at any other time.
    pub debris: Vec<DrawCmd>,
    /// The score of the run, once the train has arrived.
    pub final_score: Option<i32>,
}

impl GameState {
    /// The amount by which the screen shakes in the frame that shows this
    /// state: the magnitude of the ride while the train runs, the shake of the
    /// explosion while it lasts, and nothing at any other time.
    pub open spec fn shake_amount(self) -> int {
        if self.phase == Phase::Running {
            shake_magnitude_spec(self.velocity)
        } else if self.is_exploding() {
            EXPLOSION_SHAKE as int
        } else {
            0
        }
    }

    /// The name of the stop that the train has last passed.
    pub open spec fn current_stop_name(self) -> &'static str {
        if self.current_stop != 0 {
            self.route[self.current_stop - 1].name
        } else {
            ""
        }
    }

    /// Whether `view` is a frame of this state, in which `next_stop` is the
    /// number of the stop to announce and `explosion_tick` the count of the
    /// explosion's timer.
    ///
    /// Every field but two is fixed by these. The offset of the shake and the
    /// debris come of the random source: the offset lies within the amount of
    /// the shake, and the debris is a frame of an explosion for some draws.
    pub open spec fn frames(self, next_stop: int, explosion_tick: int, view: RenderView) -> bool {
        &&& view.phase == self.phase
        &&& view.velocity == self.velocity
        &&& view.cumulative_delta == self.delta
        &&& view.current_stop_name == self.current_stop_name()
        &&& view.next_stop_name == self.route[next_stop].name
        &&& view.next_stop_distance == distance_to_stop(
            self.route,
            self.current_stop,
            self.position(),
        )
        &&& view.distance_is_out_of_bounds == (next_stop == self.route.len() - 1)
        &&& view.intro_percentage.numerator == self.intro_timer.current
        &&& view.intro_percentage.denominator == self.intro_timer.end
        &&& view.explosion_tick == explosion_tick
        &&& view.arrival_percentage.numerator == self.arrival_timer.current
        &&& view.arrival_percentage.denominator == self.arrival_timer.end
        &&& view.shake_magnitude == if self.phase == Phase::Running {
            shake_magnitude_spec(self.velocity)
        } else {
            0
        }
        &&& if self.shake_amount() > 0 {
            &&& -self.shake_amount() < view.shake_offset.x <= self.shake_amount()
            &&& -self.shake_amount() < view.shake_offset.y <= self.shake_amount()
        } else {
            view.shake_offset == (Point { x: 0, y: 0 })
        }
        &&& if self.is_exploding() {
            is_explosion_picture(explosion_tick, view.debris.deep_view())
        } else {
            view.debris@.len() == 0
        }
        &&& view.final_score matches Some(s) ==> self.final_score == Some(s as int)
        &&& view.final_score is None ==> self.final_score is None
    }

    /// The number of the stop that the frame of a tick announces as the next:
    /// the one that the train looks out for once the distance has been read.
    /// On a restart nothing is read, and it is the first stop of the line.
    pub open spec fn announced_stop(self, input: Input) -> int {
        self.shown(input).queried_unless(self.restarts(input)).current_stop
    }

    /// This state if `skip` holds, else the state after the distance is read.
    pub open spec fn queried_unless(self, skip: bool) -> GameState {
        if skip {
            self
        } else {
            self.queried()
        }
    }

    /// Whether `view` is the frame of the tick that `input` gives from this
    /// state. The frame shows the state as the train has moved, announces the
    /// stop found when the distance was read, and counts the explosion's
    /// ticks as they stand after the tick.
    pub open spec fn renders(self, input: Input, view: RenderView) -> bool {
        self.shown(input).frames(
            self.announced_stop(input),
            self.tick(input).explosion_timer.current as int,
            view,
        )
    }
}

/// Tells how hard the screen shakes at the given speed.
pub fn shake_magnitude(velocity: i64) -> (magnitude: usize)
    ensures
        magnitude == shake_magnitude_spec(velocity as int),
{
    if velocity > 1_425_000 {
        4
    } else if velocity > 1_350_000 {
        2
    } else if velocity > 1_200_000 {
        1
    } else {
        0
    }
}

/// Adds one tick of travel at the given speed.
fn advance(delta: u64, velocity: i64) -> (sum: u64)
    requires
        0 <= velocity <= EXPLOSION_THRESHOLD,
    ensures
        sum == travelled(delta as int, velocity as int),
{
    let step: u64 = velocity as u64 * 5;
    if delta > u64::MAX - step {
        u64::MAX
    } else {
        delta + step
    }
}

/// Takes one tick of running off the time budget.
fn penalize(score: i64) -> (rest: i64)
    ensures
        rest == penalized(score as int),
{
    if score < i64::MIN + TICK_PENALTY {
        i64::MIN
    } else {
        score - TICK_PENALTY
    }
}

/// The simulation of one game: the train, the run's phase and timers, the
/// score, and the random source that scatters debris and shakes the screen.
///
/// The host owns one of these, feeds it one `Input` per tick and draws the
/// `RenderView` that comes back.
#[derive(Debug)]
pub struct MyGame {
    state: Phase,
    delta: u64,
    train: Train,
    score: i64,
    final_score: Option<i32>,
    rng: SmallRng,
    init_timer: Timer,
    explosion_timer: Timer,
    game_over_timer: Timer,
    was_crank_moved: bool,
    route: RouteTable,
}

impl View for MyGame {
    type V = GameState;

    closed spec fn view(&self) -> GameState {
        GameState {
            phase: self.state,
            delta: self.delta as int,
            velocity: self.train.velocity as int,
            current_stop: self.train.current_stop as int,
            score: self.score as int,
            final_score: match self.final_score {
                Some(s) => Some(s as int),
                None => None,
            },
            intro_timer: self.init_timer@,
            explosion_timer: self.explosion_timer@,
            arrival_timer: self.game_over_timer@,
            crank_ever_moved: self.was_crank_moved,
            route: self.route@,
        }
    }
}

impl MyGame {
    /// Every game made by `new` and advanced by `update` is well formed.
    pub open spec fn wf(&self) -> bool {
        self@.wf()
    }

    /// A game at the start of a run. The seed goes to the random source.
    pub fn new(seed: u64) -> (game: MyGame)
        ensures
            game.wf(),
            game@ == GameState::fresh(),
    {
        proof {
            lemma_fresh_wf();
        }
        MyGame {
            state: Phase::Start,
            delta: 0,
            train: Train::new(START_VELOCITY),
            score: START_SCORE,
            final_score: None,
            rng: seeded(seed),
            init_timer: Timer::new(0, INTRO_TICKS, false),
            explosion_timer: Timer::new(0, EXPLOSION_TICKS, true),
            game_over_timer: Timer::new(0, ARRIVAL_TICKS, true),
            was_crank_moved: false,
            route: RouteTable::standard(),
        }
    }

    /// The phase that the simulation is in.
    pub fn phase(&self) -> (phase: Phase)
        ensures
            phase == self@.phase,
    {
        self.state
    }

    /// The speed of the train, in fixed point.
    pub fn velocity(&self) -> (velocity: i64)
        ensures
            velocity == self@.velocity,
    {
        self.train.velocity
    }

    /// The number of the stop that the train looks out for.
    pub fn current_stop(&self) -> (stop: usize)
        ensures
            stop == self@.current_stop,
    {
        self.train.current_stop
    }

    /// What is left of the time budget, in fixed point.
    pub fn score(&self) -> (score: i64)
        ensures
            score == self@.score,
    {
        self.score
    }

    /// Whether the crank has been moved in this run while the train was running.
    pub fn crank_ever_moved(&self) -> (moved: bool)
        ensures
            moved == self@.crank_ever_moved,
    {
        self.was_crank_moved
    }

    /// The frame of a state on which no rule has been applied in this tick.
    fn still_frame(&self) -> (view: RenderView)
        requires
            self.wf(),
        ensures
            self@.shake_amount() == 0 && !self@.is_exploding() ==> self@.frames(
                self@.current_stop,
                self@.explosion_timer.current as int,
                view,
            ),
    {
        proof {
            crate::route::lemma_standard_stops_is_route();
        }
        let current_stop_name = if self.train.current_stop != 0 {
            self.route.stop(self.train.current_stop - 1).name
        } else {
            ""
        };
        let next: RouteStop = self.route.stop(self.train.current_stop);
        let distance: i64 = next.threshold_distance as i64 - to_meters(self.delta) as i64;
        RenderView {
            phase: self.state,
            velocity: self.train.velocity,
            cumulative_delta: self.delta,
            current_stop_name,
            next_stop_name: next.name,
            next_stop_distance: distance as i32,
            distance_is_out_of_bounds: self.train.current_stop == self.route.len() - 1,
            intro_percentage: self.init_timer.get_percentage(),
            explosion_tick: self.explosion_timer.get_value(),
            arrival_percentage: self.game_over_timer.get_percentage(),
            shake_magnitude: 0,
            shake_offset: Point { x: 0, y: 0 },
            debris: Vec::new(),
            final_score: self.final_score,
        }
    }

    /// Advances the simulation by one tick and returns the frame to draw.
    ///
    /// If the run is over and button B is down, the game starts anew, seeded by
    /// the clock, and the frame shows the fresh state. Else the train moves,
    /// the distance to the next stop is read, the timer of the phase counts,
    /// and a turn of the crank is remembered, in this order.
    pub fn update(&mut self, input: Input) -> (view: RenderView)
        requires
            old(self).wf(),
        ensures
            final(self).wf(),
            final(self)@ == old(self)@.tick(input),
            old(self)@.renders(input, view),
            view.velocity >= 0,
            final(self)@.velocity >= 0,
    {
        proof {
            crate::route::lemma_standard_stops_is_route();
            lemma_tick_wf(self@, input);
            lemma_moved_wf(self@, input);
        }
        if (self.state == Phase::Arrived || self.state == Phase::Exploded) && input.button_b {
            *self = MyGame::new(input.clock);
            return self.still_frame();
        }
        // The train moves.
        if self.state == Phase::Start {
            self.delta = advance(self.delta, self.train.velocity);
            if input.button_a {
                self.init_timer.start();
            }
        } else if self.state == Phase::Running {
            self.delta = advance(self.delta, self.train.velocity);
            let gain: i64 = clamp(input.crank_delta, 0, i64::MAX) / CRANK_SENSITIVITY;
            let mut velocity: i64 = self.train.velocity + gain;
            if self.was_crank_moved {
                velocity = velocity - INERTIA;
            }
            self.score = penalize(self.score);
            self.train.velocity = clamp(velocity, 0, i64::MAX);
            if self.train.velocity > EXPLOSION_THRESHOLD {
                self.state = Phase::Exploded;
            } else if self.train.velocity < ARRIVAL_THRESHOLD {
                self.state = Phase::Arrived;
                self.final_score = Some(final_score(self.score, distance_error(self.delta)));
            }
        }
        assert(self@ == old(self)@.moved(input));
        let ghost shown = self@;

        // The ride shakes the screen.
        let magnitude: usize = if self.state == Phase::Running {
            shake_magnitude(self.train.velocity)
        } else {
            0
        };
        let mut shake_offset: Point = Point { x: 0, y: 0 };
        if magnitude > 0 {
            shake_offset = screen_shake(magnitude, &mut self.rng);
        }

        // The stops.
        let phase: Phase = self.state;
        let cumulative_delta: u64 = self.delta;
        let current_stop_name = if self.train.current_stop != 0 {
            self.route.stop(self.train.current_stop - 1).name
        } else {
            ""
        };
        let distance: i64 = self.train.get_next_stop_distance(&self.route, to_meters(self.delta));
        let next_stop_name = self.route.stop(self.train.current_stop).name;
        let distance_is_out_of_bounds: bool = self.train.current_stop == self.route.len() - 1;
        assert(self@ == shown.queried());

        // The timers.
        let intro_percentage: Fraction = self.init_timer.get_percentage();
        let arrival_percentage: Fraction = self.game_over_timer.get_percentage();
        let mut debris: Vec<DrawCmd> = Vec::new();
        if self.state == Phase::Exploded {
            if !self.explosion_timer.step() {
                debris = draw_explosion(self.explosion_timer.get_value(), &mut self.rng);
                shake_offset = screen_shake(EXPLOSION_SHAKE, &mut self.rng);
            } else {
                self.game_over_timer.step();
            }
        }
        if self.state == Phase::Arrived {
            self.game_over_timer.step();
        }
        if self.state == Phase::Start {
            if self.init_timer.step() {
                self.delta = 0;
                self.train.current_stop = 0;
                self.state = Phase::Running;
            }
        }
        assert(self@ == shown.queried().animated());

        // The crank.
        if !self.was_crank_moved && self.state == Phase::Running && input.crank_delta > 0 {
            self.was_crank_moved = true;
        }
        assert(self@ == shown.queried().animated().latched(input));

        RenderView {
            phase,
            velocity: self.train.velocity,
            cumulative_delta,
            current_stop_name,
            next_stop_name,
            next_stop_distance: distance as i32,
            distance_is_out_of_bounds,
            intro_percentage,
            explosion_tick: self.explosion_timer.get_value(),
            arrival_percentage,
            shake_magnitude: magnitude,
            shake_offset,
            debris,
            final_score: self.final_score,
        }
    }
}

} // verus!
