//! What holds of every run, proved from the rules of a tick.

use vstd::prelude::*;
use crate::game::lemma_tick_wf;
use crate::game::GameState;
use crate::game::Input;
use crate::game::Phase;
use crate::game::EXPLOSION_THRESHOLD;
use crate::score::distance_error_spec;
use crate::score::final_score_spec;
use crate::units::UNIT;

verus! {

/// Every state that a run reaches from a well-formed one is well formed, and
/// the speed of the train in it is not negative, whatever the inputs were.
pub proof fn lemma_run_wf(state: GameState, inputs: Seq<Input>)
    requires
        state.wf(),
    ensures
        state.run(inputs).wf(),
        state.run(inputs).velocity >= 0,
    decreases inputs.len(),
{
    if inputs.len() > 0 {
        lemma_run_wf(state, inputs.drop_last());
        lemma_tick_wf(state.run(inputs.drop_last()), inputs.last());
    }
}

/// The speed of the train is never negative: not after any tick of a game
/// that began fresh, whatever the player did.
pub proof fn lemma_velocity_never_negative(inputs: Seq<Input>)
    ensures
        GameState::fresh().run(inputs).velocity >= 0,
{
    crate::game::lemma_fresh_wf();
    lemma_run_wf(GameState::fresh(), inputs);
}

/// The phases follow one another in one direction. The intro can only give
/// way to the run, and the run can only end in an arrival or an explosion. A
/// run that is over stays as it ended, arrived or exploded, until a restart,
/// which puts a fresh state in its place.
pub proof fn lemma_phase_order(state: GameState, input: Input)
    ensures
        state.phase == Phase::Start ==> state.tick(input).phase == Phase::Start || state.tick(
            input,
        ).phase == Phase::Running,
        state.phase == Phase::Running ==> state.tick(input).phase != Phase::Start,
        state.is_over() && !input.button_b ==> state.tick(input).phase == state.phase,
        state.is_over() && input.button_b ==> state.tick(input) == GameState::fresh(),
        GameState::fresh().phase == Phase::Start,
{
}

/// The score of a run is fixed on the tick on which the train arrives, from
/// the time budget and the travel as they stand after that tick.
pub proof fn lemma_score_at_arrival(state: GameState, input: Input)
    requires
        state.phase == Phase::Running,
        state.tick(input).phase == Phase::Arrived,
    ensures
        state.tick(input).final_score == Some(
            final_score_spec(state.tick(input).score, distance_error_spec(state.tick(input).delta)),
        ),
{
}

/// After the arrival the score is computed no more: until a restart every
/// tick leaves the score, and the time budget and the travel that it was
/// computed from, as they were.
pub proof fn lemma_score_computed_once(state: GameState, input: Input)
    requires
        state.phase == Phase::Arrived,
        !input.button_b,
    ensures
        state.tick(input).phase == Phase::Arrived,
        state.tick(input).final_score == state.final_score,
        state.tick(input).score == state.score,
        state.tick(input).delta == state.delta,
        state.tick(input).velocity == state.velocity,
{
}

/// However many ticks follow an arrival, the score stays as it was computed,
/// as long as none of them restarts the game.
pub proof fn lemma_score_stays(state: GameState, inputs: Seq<Input>)
    requires
        state.phase == Phase::Arrived,
        forall|i: int| 0 <= i < inputs.len() ==> !(#[trigger] inputs[i]).button_b,
    ensures
        state.run(inputs).phase == Phase::Arrived,
        state.run(inputs).final_score == state.final_score,
    decreases inputs.len(),
{
    if inputs.len() > 0 {
        lemma_score_stays(state, inputs.drop_last());
        lemma_score_computed_once(state.run(inputs.drop_last()), inputs.last());
    }
}

/// A train that is faster than the explosion threshold has exploded, and only
/// such a train: in no state that a run reaches does a speed above 1.0 go
/// with an arrival, or with a train still running.
pub proof fn lemma_too_fast_explodes(state: GameState, input: Input)
    requires
        state.wf(),
    ensures
        (state.tick(input).velocity > EXPLOSION_THRESHOLD) == (state.tick(input).phase
            == Phase::Exploded),
        state.tick(input).velocity > UNIT ==> state.tick(input).phase == Phase::Exploded,
{
    lemma_tick_wf(state, input);
}

/// A train does not arrive before the crank has been moved: as long as the
/// crank has never been moved the speed does not decay, and no tick ends in
/// `Arrived`.
pub proof fn lemma_no_arrival_before_crank(state: GameState, input: Input)
    requires
        state.wf(),
        !state.crank_ever_moved,
    ensures
        state.tick(input).phase != Phase::Arrived,
        !state.restarts(input) ==> state.tick(input).velocity >= state.velocity,
{
    lemma_tick_wf(state, input);
    if state.phase == Phase::Running {
        assert(crate::game::crank_gain(input.crank_delta as int) >= 0) by {
            if input.crank_delta > 0 {
                vstd::arithmetic::div_mod::lemma_div_pos_is_pos(input.crank_delta as int, 1500);
            }
        }
    }
}

/// The train never goes back along the line within a run: a tick leaves the
/// travel and the stop that the train looks out for where they were or moves
/// them on. Only a restart and the end of the intro put the train back to the
/// start of the line.
pub proof fn lemma_train_moves_on(state: GameState, input: Input)
    requires
        state.wf(),
        !state.restarts(input),
        !(state.phase == Phase::Start && state.tick(input).phase == Phase::Running),
    ensures
        state.tick(input).delta >= state.delta,
        state.tick(input).current_stop >= state.current_stop,
        state.tick(input).current_stop < state.route.len(),
{
    lemma_tick_wf(state, input);
    crate::game::lemma_moved_wf(state, input);
}

} // verus!
