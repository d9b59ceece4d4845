//! Laws of the animator, proved of its model.
//!
//! Each law is stated of [`AnimatorView`], the value that the executable
//! methods are proved to compute with, so it holds of every animator.

use crate::graph::{AnimatorParam, Transition, UNIT};
use crate::model::{lemma_play_position, names_in, triggers_among, AnimatorView};
use crate::timer::frame_period;
use vstd::prelude::*;

verus! {

// ----- the parameter store -----

/// A `Bool` parameter reads back the value that was written to it.
pub proof fn lemma_bool_round_trip<H>(animator: AnimatorView<H>, name: Seq<char>, value: bool)
    requires
        animator.param(name) matches Some(AnimatorParam::Bool(_)),
    ensures
        animator.with_bool(name, value).get_bool(name) == value,
{
}

/// A `Float` parameter reads back the value that was written to it.
pub proof fn lemma_float_round_trip<H>(animator: AnimatorView<H>, name: Seq<char>, value: i64)
    requires
        animator.param(name) matches Some(AnimatorParam::Float(_)),
    ensures
        animator.with_float(name, value).get_float(name) == value,
{
}

/// A trigger is active as soon as it is set.
pub proof fn lemma_trigger_active_once_set<H>(animator: AnimatorView<H>, name: Seq<char>)
    requires
        animator.param(name) matches Some(AnimatorParam::Trigger(_)),
    ensures
        animator.with_trigger(name).is_active(name),
        animator.with_trigger(name).param(name) == Some(AnimatorParam::Trigger(true)),
{
}

/// Setting a trigger twice is the same as setting it once.
pub proof fn lemma_set_trigger_idempotent<H>(animator: AnimatorView<H>, name: Seq<char>)
    ensures
        animator.with_trigger(name).with_trigger(name) == animator.with_trigger(name),
{
    let once = animator.with_trigger(name);
    let twice = once.with_trigger(name);
    assert(twice.parameters =~= once.parameters);
    assert(twice.active_triggers =~= once.active_triggers);
}

/// A write never changes the type of a parameter, and never adds or removes
/// one.
pub proof fn lemma_writes_keep_types<H>(
    animator: AnimatorView<H>,
    name: Seq<char>,
    flag: bool,
    number: i64,
    other: Seq<char>,
)
    ensures
        same_type(animator.param(other), animator.with_bool(name, flag).param(other)),
        same_type(animator.param(other), animator.with_float(name, number).param(other)),
        same_type(animator.param(other), animator.with_trigger(name).param(other)),
        same_type(animator.param(other), animator.without_triggers(set![name]).param(other)),
{
}

/// Whether two parameters are both missing or of one type.
pub open spec fn same_type(a: Option<AnimatorParam>, b: Option<AnimatorParam>) -> bool {
    match (a, b) {
        (None, None) => true,
        (Some(AnimatorParam::Bool(_)), Some(AnimatorParam::Bool(_))) => true,
        (Some(AnimatorParam::Float(_)), Some(AnimatorParam::Float(_))) => true,
        (Some(AnimatorParam::Trigger(_)), Some(AnimatorParam::Trigger(_))) => true,
        _ => false,
    }
}

/// A trigger that is active stays active through every update that completes
/// no switch.
pub proof fn lemma_tick_keeps_triggers<H>(
    animator: AnimatorView<H>,
    delta_nanos: u64,
    atlas_index: usize,
)
    requires
        animator.target_state is None,
    ensures
        animator.step(delta_nanos, atlas_index).next.active_triggers == animator.active_triggers,
        animator.step(delta_nanos, atlas_index).next.parameters == animator.parameters,
        !animator.step(delta_nanos, atlas_index).outcome.switched,
{
}

// ----- selection -----

/// Priority is list order: the transition selected is one that can be taken,
/// and none before it in the list can.
pub proof fn lemma_first_ready_is_least<H>(animator: AnimatorView<H>, transitions: Seq<Transition>)
    ensures
        match animator.first_ready(transitions) {
            Some(i) => {
                &&& 0 <= i < transitions.len()
                &&& animator.ready(transitions[i])
                &&& forall|j: int| 0 <= j < i ==> !animator.ready(#[trigger] transitions[j])
            },
            None => forall|j: int|
                0 <= j < transitions.len() ==> !animator.ready(#[trigger] transitions[j]),
        },
{
    lemma_first_ready_from(animator, transitions, 0);
}

/// What [`AnimatorView::first_ready_from`] finds is the least index from
/// `from` on whose transition can be taken.
pub proof fn lemma_first_ready_from<H>(
    animator: AnimatorView<H>,
    transitions: Seq<Transition>,
    from: int,
)
    requires
        0 <= from,
    ensures
        match animator.first_ready_from(transitions, from) {
            Some(i) => {
                &&& from <= i < transitions.len()
                &&& animator.ready(transitions[i])
                &&& forall|j: int| from <= j < i ==> !animator.ready(#[trigger] transitions[j])
            },
            None => forall|j: int|
                from <= j < transitions.len() ==> !animator.ready(#[trigger] transitions[j]),
        },
    decreases transitions.len() - from,
{
    if from < transitions.len() && !animator.ready(transitions[from]) {
        lemma_first_ready_from(animator, transitions, from + 1);
    }
}

/// Of two transitions that can both be taken, the one listed first is
/// selected: swapping them swaps the outcome.
pub proof fn lemma_first_match_wins<H>(
    animator: AnimatorView<H>,
    first: Transition,
    second: Transition,
)
    requires
        animator.ready(first),
        animator.ready(second),
    ensures
        animator.first_ready(seq![first, second]) == Some(0int),
        animator.first_ready(seq![second, first]) == Some(0int),
        seq![first, second][0] == first,
        seq![second, first][0] == second,
{
}

/// A transition with an exit time cannot be taken before the play position
/// has reached it, whatever its conditions; from then on it can be taken as
/// soon as its conditions hold.
pub proof fn lemma_exit_time_gates<H>(animator: AnimatorView<H>, transition: Transition)
    requires
        transition.has_exit_time,
    ensures
        animator.before(transition.exit_time) ==> !animator.ready(transition),
        !animator.before(transition.exit_time) ==> (animator.ready(transition)
            <==> animator.all_hold(transition.conditions@)),
{
}

/// An exit time of 1.0 is reached when a whole play-through has been played,
/// and not before.
pub proof fn lemma_exit_time_one_is_a_play_through<H>(animator: AnimatorView<H>)
    requires
        animator.wf(),
    ensures
        animator.before(UNIT) <==> animator.frames_played < animator.frame_count(),
{
    lemma_play_position(animator.frames_played as int, animator.frame_count(), 0);
}

/// While no switch is pending and the current state is registered, an update
/// plays a frame exactly when its tick takes the clock to the end of the
/// frame period; a tick of a whole period always does. In a state that does
/// not loop, at a frame rate above zero, that is one more frame played.
pub proof fn lemma_one_frame_per_period<H>(
    animator: AnimatorView<H>,
    delta_nanos: u64,
    atlas_index: usize,
)
    requires
        animator.wf(),
        animator.target_state is None,
        animator.current() is Some,
    ensures
        delta_nanos >= animator.timer.period_nanos ==> animator.timer.fires(delta_nanos),
        animator.timer.fires(delta_nanos) <==> animator.timer.elapsed_nanos + delta_nanos
            >= frame_period(animator.fps),
        !animator.timer.fires(delta_nanos) ==> {
            &&& animator.step(delta_nanos, atlas_index).next.frames_played
                == animator.frames_played
            &&& animator.step(delta_nanos, atlas_index).atlas_index == atlas_index
            &&& animator.step(delta_nanos, atlas_index).next.timer.elapsed_nanos
                == animator.timer.elapsed_nanos + delta_nanos
        },
        animator.timer.fires(delta_nanos) ==> animator.step(
            delta_nanos,
            atlas_index,
        ).next.timer.elapsed_nanos == 0,
        animator.timer.fires(delta_nanos) && !animator.current().unwrap().loop_animation
            && animator.fps > 0 && animator.frames_played < u64::MAX ==> animator.step(
            delta_nanos,
            atlas_index,
        ).next.frames_played == animator.frames_played + 1,
{
}

/// An update that finds no transition ready selects none, and the state
/// plays on.
pub proof fn lemma_nothing_ready_plays_on<H>(
    animator: AnimatorView<H>,
    delta_nanos: u64,
    atlas_index: usize,
)
    requires
        animator.target_state is None,
        animator.selected(delta_nanos) is None,
    ensures
        animator.step(delta_nanos, atlas_index).next.target_state is None,
        animator.step(delta_nanos, atlas_index).next.current_state == animator.current_state,
        animator.step(delta_nanos, atlas_index).next.consumed_triggers
            == animator.consumed_triggers,
{
}

// ----- the deferred switch -----

/// A selected transition is applied by the update after the one that selected
/// it: the first update schedules the target and switches nothing, the second
/// makes the target the current state, shows its first frame, and leaves no
/// switch pending.
pub proof fn lemma_switch_is_deferred_one_update<H>(
    animator: AnimatorView<H>,
    transition: Transition,
    first_delta: u64,
    second_delta: u64,
    atlas_index: usize,
)
    requires
        animator.target_state is None,
        animator.selected(first_delta) == Some(transition),
    ensures
        ({
            let first = animator.step(first_delta, atlas_index);
            let second = first.next.step(second_delta, first.atlas_index);
            &&& !first.outcome.switched
            &&& first.next.current_state == animator.current_state
            &&& first.next.target_state == Some(transition.target_state@)
            &&& second.outcome.switched
            &&& second.next.current_state == transition.target_state@
            &&& second.next.target_state is None
            &&& second.next.frames_played == 0
            &&& second.atlas_index == second.next.first_index
            &&& second.next.consumed_triggers == Set::<Seq<char>>::empty()
        }),
{
}

/// A trigger that a selected transition waited for stays active through the
/// update that selects the transition, and is consumed by the next update,
/// which completes the switch.
pub proof fn lemma_trigger_consumed_by_the_switch<H>(
    animator: AnimatorView<H>,
    transition: Transition,
    condition: int,
    first_delta: u64,
    second_delta: u64,
    atlas_index: usize,
)
    requires
        animator.target_state is None,
        animator.selected(first_delta) == Some(transition),
        0 <= condition < transition.conditions@.len(),
        transition.conditions@[condition].value == AnimatorParam::Trigger(true),
    ensures
        ({
            let name = transition.conditions@[condition].param_name@;
            let first = animator.step(first_delta, atlas_index);
            let second = first.next.step(second_delta, first.atlas_index);
            &&& animator.is_active(name)
            &&& first.next.is_active(name)
            &&& first.next.consumed_triggers.contains(name)
            &&& !second.next.is_active(name)
            &&& second.next.param(name) == Some(AnimatorParam::Trigger(false))
            &&& !second.next.consumed_triggers.contains(name)
        }),
{
    let name = transition.conditions@[condition].param_name@;
    let state = animator.current().unwrap();
    let played = animator.played(first_delta);
    lemma_first_ready_is_least(played, state.transitions@);
    assert(played.condition_holds(transition.conditions@[condition]));
    assert(names_in(transition.conditions@).contains(name));
    assert(triggers_among(played.parameters, names_in(transition.conditions@)).contains(name));
}

/// A switch resets the triggers that were to be consumed, and only those:
/// every other parameter and every other active trigger stays as it was.
pub proof fn lemma_switch_consumes_only_its_triggers<H>(
    animator: AnimatorView<H>,
    delta_nanos: u64,
    atlas_index: usize,
    name: Seq<char>,
)
    requires
        animator.target_state is Some,
        !animator.consumed_triggers.contains(name),
    ensures
        animator.step(delta_nanos, atlas_index).next.param(name) == animator.param(name),
        animator.step(delta_nanos, atlas_index).next.is_active(name) == animator.is_active(name),
{
}

// ----- invariants -----

/// An update keeps an animator in order.
pub proof fn lemma_step_keeps_wf<H>(animator: AnimatorView<H>, delta_nanos: u64, atlas_index: usize)
    requires
        animator.wf(),
    ensures
        animator.step(delta_nanos, atlas_index).next.wf(),
{
    crate::timer::lemma_frame_period_positive(animator.fps);
}

/// An update never changes the state graph or the frame rate.
pub proof fn lemma_step_keeps_graph<H>(
    animator: AnimatorView<H>,
    delta_nanos: u64,
    atlas_index: usize,
)
    ensures
        animator.step(delta_nanos, atlas_index).next.states == animator.states,
        animator.step(delta_nanos, atlas_index).next.fps == animator.fps,
{
}

/// A looping state stays within one play-through: if the play position is
/// short of a whole play-through before an update, it is so after it.
pub proof fn lemma_step_keeps_wrapped<H>(
    animator: AnimatorView<H>,
    delta_nanos: u64,
    atlas_index: usize,
)
    requires
        animator.wf(),
        animator.wrapped(),
    ensures
        animator.step(delta_nanos, atlas_index).next.wrapped(),
{
    let next = animator.step(delta_nanos, atlas_index).next;
    lemma_step_keeps_wf(animator, delta_nanos, atlas_index);
    if animator.target_state is None {
        if let Some(state) = animator.current() {
            if animator.timer.fires(delta_nanos) && state.loop_animation {
                lemma_frame_wraps_looping_state(animator);
            }
        }
    } else {
        lemma_play_position(0, next.frame_count(), 0);
    }
}

/// Whenever a frame is played in a looping state, the play position ends
/// short of a whole play-through, wherever it stood before.
pub proof fn lemma_frame_wraps_looping_state<H>(animator: AnimatorView<H>)
    requires
        animator.wf(),
    ensures
        animator.after_frame(true).frames_played < animator.frame_count(),
        0 <= animator.after_frame(true).normalized_time() < UNIT,
{
    let played: int = if animator.fps == 0 || animator.frames_played == u64::MAX {
        animator.frames_played as int
    } else {
        animator.frames_played + 1
    };
    vstd::arithmetic::div_mod::lemma_mod_bound(played, animator.frame_count());
    lemma_play_position(played % animator.frame_count(), animator.frame_count(), 0);
}

/// Over any run of updates, an animator stays in order and a looping state
/// stays within one play-through.
pub proof fn lemma_run_keeps_wrapped<H>(
    animator: AnimatorView<H>,
    deltas: Seq<u64>,
    atlas_index: usize,
)
    requires
        animator.wf(),
        animator.wrapped(),
    ensures
        animator.run(deltas, atlas_index).next.wf(),
        animator.run(deltas, atlas_index).next.wrapped(),
    decreases deltas.len(),
{
    if deltas.len() > 0 {
        lemma_run_keeps_wrapped(animator, deltas.drop_last(), atlas_index);
        let so_far = animator.run(deltas.drop_last(), atlas_index);
        lemma_step_keeps_wf(so_far.next, deltas.last(), so_far.atlas_index);
        lemma_step_keeps_wrapped(so_far.next, deltas.last(), so_far.atlas_index);
    }
}

/// A new animator is in order and within one play-through.
pub proof fn lemma_initial_is_wrapped<H>()
    ensures
        AnimatorView::<H>::initial().wf(),
        AnimatorView::<H>::initial().wrapped(),
{
    lemma_play_position(0, 1, 0);
}

/// An animator that has played no frame of its current state is within one
/// play-through, whatever was registered or written since it was made.
pub proof fn lemma_unplayed_is_wrapped<H>(animator: AnimatorView<H>)
    requires
        animator.wf(),
        animator.frames_played == 0,
    ensures
        animator.normalized_time() == 0,
        animator.wrapped(),
{
    lemma_play_position(0, animator.frame_count(), 1);
}

} // verus!
