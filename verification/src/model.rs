//! The mathematical model of an animator.
//!
//! An animator is viewed as an [`AnimatorView`]: tables and sets keyed by the
//! characters of a name, and plain numbers. Everything an animator does is
//! stated here as a function from view to view; the executable methods are
//! proved to compute these functions.

use crate::graph::{
    AnimationState, AnimatorParam, Condition, ConditionOperator, Transition, Update, EPSILON, UNIT,
};
use crate::timer::{frame_period, FrameTimer};
use vstd::prelude::*;

verus! {

/// An animator as a mathematical value.
#[verifier::ext_equal]
pub ghost struct AnimatorView<H> {
    /// The state graph: each registered state under its name.
    pub states: Map<Seq<char>, AnimationState<H>>,
    /// The parameter store.
    pub parameters: Map<Seq<char>, AnimatorParam>,
    /// The name of the state that is playing.
    pub current_state: Seq<char>,
    /// The state that the next update switches to, if a transition was selected.
    pub target_state: Option<Seq<char>>,
    /// The first sprite frame of what is playing.
    pub first_index: usize,
    /// The last sprite frame of what is playing.
    pub last_index: usize,
    /// Frames per second.
    pub fps: u8,
    /// The clock that says when the next frame is due.
    pub timer: FrameTimer,
    /// How many frames the current state has played; for a looping state,
    /// since it last wrapped round.
    pub frames_played: u64,
    /// The triggers that were set and not yet consumed.
    pub active_triggers: Set<Seq<char>>,
    /// The triggers that the pending switch will consume.
    pub consumed_triggers: Set<Seq<char>>,
}

/// What one update makes of an animator and of the sprite's frame index.
pub ghost struct Step<H> {
    pub next: AnimatorView<H>,
    pub atlas_index: usize,
    pub outcome: Update<H>,
}

/// The outcome of an update that completed no switch.
pub open spec fn no_switch<H>() -> Update<H> {
    Update { switched: false, on_exit: None, on_enter: None }
}

/// The names among `names` that `parameters` holds as triggers.
pub open spec fn triggers_among(
    parameters: Map<Seq<char>, AnimatorParam>,
    names: Set<Seq<char>>,
) -> Set<Seq<char>> {
    Set::new(
        |name: Seq<char>|
            names.contains(name) && parameters.contains_key(name)
                && parameters[name] is Trigger,
    )
}

/// The names of the parameters that `conditions` speak of.
pub open spec fn names_in(conditions: Seq<Condition>) -> Set<Seq<char>> {
    Set::new(
        |name: Seq<char>|
            exists|i: int| 0 <= i < conditions.len() && #[trigger] conditions[i].param_name@ == name,
    )
}

/// The play position of `frames` frames out of `count` compares with a whole
/// number of billionths as the exact fraction does: it is less than `limit`
/// if and only if `frames / count` is. So it is short of 1.0 exactly while
/// fewer than `count` frames are played.
pub proof fn lemma_play_position(frames: int, count: int, limit: int)
    requires
        0 <= frames,
        0 < count,
    ensures
        0 <= frames * UNIT / count,
        frames * UNIT / count < limit <==> frames * UNIT < limit * count,
        frames * UNIT / count < UNIT <==> frames < count,
{
    let scaled = frames * UNIT;
    let position = scaled / count;
    assert(scaled >= 0) by (nonlinear_arith)
        requires
            frames >= 0,
            scaled == frames * UNIT,
    ;
    vstd::arithmetic::div_mod::lemma_fundamental_div_mod(scaled, count);
    vstd::arithmetic::div_mod::lemma_mod_bound(scaled, count);
    assert(position * count <= scaled < (position + 1) * count) by (nonlinear_arith)
        requires
            scaled == count * position + scaled % count,
            0 <= scaled % count < count,
    ;
    assert(position >= 0) by (nonlinear_arith)
        requires
            scaled >= 0,
            count > 0,
            scaled < (position + 1) * count,
    ;
    assert(position < limit <==> scaled < limit * count) by (nonlinear_arith)
        requires
            count > 0,
            position * count <= scaled < (position + 1) * count,
    ;
    assert(scaled < UNIT * count <==> frames < count) by (nonlinear_arith)
        requires
            scaled == frames * UNIT,
            UNIT > 0,
    ;
    assert(position < UNIT <==> scaled < UNIT * count) by (nonlinear_arith)
        requires
            count > 0,
            position * count <= scaled < (position + 1) * count,
    ;
}

impl<H> AnimatorView<H> {
    /// A new animator: nothing registered, nothing playing, no frame rate.
    pub open spec fn initial() -> Self {
        AnimatorView {
            states: Map::empty(),
            parameters: Map::empty(),
            current_state: Seq::empty(),
            target_state: None,
            first_index: 0,
            last_index: 0,
            fps: 0,
            timer: FrameTimer::fresh(0),
            frames_played: 0,
            active_triggers: Set::empty(),
            consumed_triggers: Set::empty(),
        }
    }

    /// What every animator keeps true: the frame range that is playing and
    /// the range of every registered state hold at least one frame; every
    /// state is registered under its own name; the clock runs, with the
    /// period of the frame rate; and triggers wait to be consumed only while
    /// a switch is pending.
    pub open spec fn wf(self) -> bool {
        &&& self.first_index <= self.last_index
        &&& self.timer.period_nanos == frame_period(self.fps)
        &&& self.timer.elapsed_nanos < self.timer.period_nanos
        &&& forall|name: Seq<char>| #[trigger]
            self.states.contains_key(name) ==> self.states[name].wf() && self.states[name].name@
                == name
        &&& self.target_state is None ==> self.consumed_triggers == Set::<Seq<char>>::empty()
    }

    // ----- the parameter store -----

    /// The parameter stored under `name`, if there is one.
    pub open spec fn param(self, name: Seq<char>) -> Option<AnimatorParam> {
        if self.parameters.contains_key(name) {
            Some(self.parameters[name])
        } else {
            None
        }
    }

    /// The value of the `Bool` parameter `name`; `false` if there is none.
    pub open spec fn get_bool(self, name: Seq<char>) -> bool {
        match self.param(name) {
            Some(AnimatorParam::Bool(value)) => value,
            _ => false,
        }
    }

    /// The value of the `Float` parameter `name`; zero if there is none.
    pub open spec fn get_float(self, name: Seq<char>) -> i64 {
        match self.param(name) {
            Some(AnimatorParam::Float(value)) => value,
            _ => 0,
        }
    }

    /// Whether the trigger `name` was set and not yet consumed.
    pub open spec fn is_active(self, name: Seq<char>) -> bool {
        self.active_triggers.contains(name)
    }

    /// The animator with another parameter store.
    pub open spec fn with_params(self, parameters: Map<Seq<char>, AnimatorParam>) -> Self {
        AnimatorView { parameters, ..self }
    }

    /// Registering a parameter: it is stored if the name is new.
    pub open spec fn with_parameter(self, name: Seq<char>, param: AnimatorParam) -> Self {
        if self.parameters.contains_key(name) {
            self
        } else {
            AnimatorView { parameters: self.parameters.insert(name, param), ..self }
        }
    }

    /// Writing a `Bool`: it is stored if `name` is a `Bool` parameter.
    pub open spec fn with_bool(self, name: Seq<char>, value: bool) -> Self {
        match self.param(name) {
            Some(AnimatorParam::Bool(_)) => AnimatorView {
                parameters: self.parameters.insert(name, AnimatorParam::Bool(value)),
                ..self
            },
            _ => self,
        }
    }

    /// Writing a `Float`: it is stored if `name` is a `Float` parameter.
    pub open spec fn with_float(self, name: Seq<char>, value: i64) -> Self {
        match self.param(name) {
            Some(AnimatorParam::Float(_)) => AnimatorView {
                parameters: self.parameters.insert(name, AnimatorParam::Float(value)),
                ..self
            },
            _ => self,
        }
    }

    /// Setting a trigger: if `name` is a `Trigger` parameter, its flag is
    /// raised and it becomes active.
    pub open spec fn with_trigger(self, name: Seq<char>) -> Self {
        match self.param(name) {
            Some(AnimatorParam::Trigger(_)) => AnimatorView {
                parameters: self.parameters.insert(name, AnimatorParam::Trigger(true)),
                active_triggers: self.active_triggers.insert(name),
                ..self
            },
            _ => self,
        }
    }

    /// Resetting triggers: each of `names` that is a `Trigger` parameter has
    /// its flag lowered and is active no more.
    pub open spec fn without_triggers(self, names: Set<Seq<char>>) -> Self {
        let reset = triggers_among(self.parameters, names);
        AnimatorView {
            parameters: Map::new(
                |name: Seq<char>| self.parameters.contains_key(name),
                |name: Seq<char>|
                    if reset.contains(name) {
                        AnimatorParam::Trigger(false)
                    } else {
                        self.parameters[name]
                    },
            ),
            active_triggers: self.active_triggers.difference(reset),
            ..self
        }
    }

    // ----- the state graph -----

    /// Whether `name` is the state that is playing.
    pub open spec fn in_state(self, name: Seq<char>) -> bool {
        self.current_state == name
    }

    /// The record of the state that is playing, if it is registered.
    pub open spec fn current(self) -> Option<AnimationState<H>> {
        if self.states.contains_key(self.current_state) {
            Some(self.states[self.current_state])
        } else {
            None
        }
    }

    /// The audio cue of the state that is playing.
    pub open spec fn cur_audio(self) -> Option<Seq<char>> {
        match self.current() {
            Some(state) => state.audio(),
            None => None,
        }
    }

    /// Registering a state under its name, in place of an earlier state of
    /// that name. The first state registered starts out as the current one.
    pub open spec fn with_state(self, state: AnimationState<H>) -> Self {
        AnimatorView {
            states: self.states.insert(state.name@, state),
            current_state: if self.states == Map::<Seq<char>, AnimationState<H>>::empty() {
                state.name@
            } else {
                self.current_state
            },
            ..self
        }
    }

    /// Choosing the state to start in: if `name` is registered, it becomes
    /// current with the given frame range and rate, and the clock starts
    /// afresh.
    pub open spec fn with_initial_state(
        self,
        name: Seq<char>,
        first_index: usize,
        last_index: usize,
        fps: u8,
    ) -> Self {
        if self.states.contains_key(name) {
            AnimatorView {
                current_state: name,
                first_index,
                last_index,
                fps,
                timer: FrameTimer::fresh(fps),
                ..self
            }
        } else {
            self
        }
    }

    // ----- conditions and transitions -----

    /// Whether a condition holds. A missing parameter, a value of another
    /// type than the parameter, and an ordering comparison of flags make it
    /// false. A trigger is tested by whether it is active, not by its stored
    /// flag.
    pub open spec fn condition_holds(self, condition: Condition) -> bool {
        let name = condition.param_name@;
        match (self.param(name), condition.value) {
            (Some(AnimatorParam::Bool(current)), AnimatorParam::Bool(expected)) => {
                condition.operator is Equals && current == expected
            },
            (Some(AnimatorParam::Float(current)), AnimatorParam::Float(expected)) => {
                match condition.operator {
                    ConditionOperator::Equals => -EPSILON < current - expected < EPSILON,
                    ConditionOperator::Greater => current > expected,
                    ConditionOperator::Less => current < expected,
                    ConditionOperator::LessOrEqual => current <= expected,
                }
            },
            (Some(AnimatorParam::Trigger(_)), AnimatorParam::Trigger(expected)) => {
                condition.operator is Equals && self.is_active(name) == expected
            },
            _ => false,
        }
    }

    /// Whether all of `conditions` hold.
    pub open spec fn all_hold(self, conditions: Seq<Condition>) -> bool {
        forall|i: int| 0 <= i < conditions.len() ==> self.condition_holds(#[trigger] conditions[i])
    }

    /// How many frames one play-through shows.
    pub open spec fn frame_count(self) -> int {
        self.last_index - self.first_index + 1
    }

    /// The play position: how much of one play-through the current state
    /// has played, in billionths. It is `frames_played / frame_count`, rounded
    /// down to a whole number of billionths.
    pub open spec fn normalized_time(self) -> int {
        self.frames_played * UNIT / self.frame_count()
    }

    /// Whether the play position is still short of `exit_time`.
    pub open spec fn before(self, exit_time: i64) -> bool {
        self.normalized_time() < exit_time
    }

    /// Whether a transition can be taken now: its exit time, if it has one,
    /// has come, and all its conditions hold.
    pub open spec fn ready(self, transition: Transition) -> bool {
        &&& !(transition.has_exit_time && self.before(transition.exit_time))
        &&& self.all_hold(transition.conditions@)
    }

    /// The first of `transitions`, from index `from` on, that can be taken.
    pub open spec fn first_ready_from(self, transitions: Seq<Transition>, from: int) -> Option<int>
        decreases transitions.len() - from,
    {
        if from < 0 || from >= transitions.len() {
            None
        } else if self.ready(transitions[from]) {
            Some(from)
        } else {
            self.first_ready_from(transitions, from + 1)
        }
    }

    /// The first of `transitions` that can be taken: priority is list order.
    pub open spec fn first_ready(self, transitions: Seq<Transition>) -> Option<int> {
        self.first_ready_from(transitions, 0)
    }

    /// Selecting a transition: its target is to be switched to by the next
    /// update, which will also consume the triggers that its conditions name.
    pub open spec fn with_target(self, transition: Transition) -> Self {
        AnimatorView {
            target_state: Some(transition.target_state@),
            consumed_triggers: self.consumed_triggers.union(
                triggers_among(self.parameters, names_in(transition.conditions@)),
            ),
            ..self
        }
    }

    // ----- the update -----

    /// The animator once a frame period has elapsed: one more frame is
    /// played, unless the rate is zero or the count is at its limit; a
    /// looping state wraps round after a full play-through; and the clock
    /// starts afresh.
    pub open spec fn after_frame(self, looping: bool) -> Self {
        let played: int = if self.fps == 0 || self.frames_played == u64::MAX {
            self.frames_played as int
        } else {
            self.frames_played + 1
        };
        AnimatorView {
            frames_played: if looping {
                (played % self.frame_count()) as u64
            } else {
                played as u64
            },
            timer: FrameTimer::fresh(self.fps),
            ..self
        }
    }

    /// The sprite frame to show next, with the play position already
    /// advanced: the frame after `atlas_index`; from the last frame, back to
    /// the first while the play-through is incomplete, else the last frame
    /// stays.
    pub open spec fn next_frame_index(self, atlas_index: usize) -> usize {
        if atlas_index == self.last_index {
            if self.normalized_time() < UNIT {
                self.first_index
            } else {
                atlas_index
            }
        } else {
            (atlas_index + 1) as usize
        }
    }

    /// The animator once the clock has ticked, while no switch is pending.
    /// Nothing happens unless the current state is registered. If the tick
    /// completes a frame period, a frame is played; else the clock counts on.
    pub open spec fn played(self, delta_nanos: u64) -> Self {
        match self.current() {
            None => self,
            Some(state) => if self.timer.fires(delta_nanos) {
                self.after_frame(state.loop_animation)
            } else {
                AnimatorView { timer: self.timer.after_tick(delta_nanos), ..self }
            },
        }
    }

    /// The transition that an update selects while no switch is pending: the
    /// first transition of the current state that can be taken once the
    /// clock has ticked.
    pub open spec fn selected(self, delta_nanos: u64) -> Option<Transition> {
        match self.current() {
            None => None,
            Some(state) => match self.played(delta_nanos).first_ready(state.transitions@) {
                Some(i) => Some(state.transitions@[i]),
                None => None,
            },
        }
    }

    /// An update while no switch is pending: the clock ticks, a due frame is
    /// played and shown, and the transition selected, if any, is scheduled.
    pub open spec fn tick(self, delta_nanos: u64, atlas_index: usize) -> Step<H> {
        let played = self.played(delta_nanos);
        Step {
            next: match self.selected(delta_nanos) {
                Some(transition) => played.with_target(transition),
                None => played,
            },
            atlas_index: if self.current() is Some && self.timer.fires(delta_nanos) {
                played.next_frame_index(atlas_index)
            } else {
                atlas_index
            },
            outcome: no_switch(),
        }
    }

    /// An update while a switch is pending. The target becomes the current
    /// state and plays from its first frame, with its own frame range if it
    /// is registered; the clock starts afresh; the triggers that the
    /// transition used are reset. The hooks to run are the exit hook of the
    /// state left and the enter hook of the state entered.
    pub open spec fn switch(self) -> Step<H> {
        let target = self.target_state.unwrap();
        let entered: Option<AnimationState<H>> = if self.states.contains_key(target) {
            Some(self.states[target])
        } else {
            None
        };
        let first_index = match entered {
            Some(state) => state.first_index,
            None => self.first_index,
        };
        let reset = self.without_triggers(self.consumed_triggers);
        Step {
            next: AnimatorView {
                current_state: target,
                target_state: None,
                first_index,
                last_index: match entered {
                    Some(state) => state.last_index,
                    None => self.last_index,
                },
                timer: FrameTimer::fresh(self.fps),
                frames_played: 0,
                consumed_triggers: Set::empty(),
                ..reset
            },
            atlas_index: first_index,
            outcome: Update {
                switched: true,
                on_exit: match self.current() {
                    Some(state) => state.on_exit,
                    None => None,
                },
                on_enter: match entered {
                    Some(state) => state.on_enter,
                    None => None,
                },
            },
        }
    }

    /// One update: the pending switch if there is one, else a tick.
    pub open spec fn step(self, delta_nanos: u64, atlas_index: usize) -> Step<H> {
        if self.target_state is Some {
            self.switch()
        } else {
            self.tick(delta_nanos, atlas_index)
        }
    }

    /// A run of updates, one for each of `deltas` in turn. The outcome is
    /// that of the last update.
    pub open spec fn run(self, deltas: Seq<u64>, atlas_index: usize) -> Step<H>
        decreases deltas.len(),
    {
        if deltas.len() == 0 {
            Step { next: self, atlas_index, outcome: no_switch() }
        } else {
            let so_far = self.run(deltas.drop_last(), atlas_index);
            so_far.next.step(deltas.last(), so_far.atlas_index)
        }
    }

    /// Whether a looping current state is within one play-through: its play
    /// position is in the range from 0.0 to 1.0, the latter excluded.
    pub open spec fn wrapped(self) -> bool {
        match self.current() {
            Some(state) => state.loop_animation ==> 0 <= self.normalized_time() < UNIT,
            None => true,
        }
    }
}

} // verus!
