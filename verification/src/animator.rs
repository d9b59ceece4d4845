//! The animator: a parameter store, a state graph, and the update that plays
//! frames and moves between states.

use crate::graph::{
    AnimationState, AnimatorParam, Condition, ConditionOperator, Transition, Update, EPSILON, UNIT,
};
use crate::model::{lemma_play_position, names_in, triggers_among, AnimatorView};
use crate::names::{NameMap, NameSet};
use crate::timer::FrameTimer;
use vstd::prelude::*;

verus! {

/// The animation state machine of one entity.
#[derive(Debug)]
pub struct Animator<H> {
    states: NameMap<AnimationState<H>>,
    parameters: NameMap<AnimatorParam>,
    current_state: String,
    target_state: Option<String>,
    first_index: usize,
    last_index: usize,
    fps: u8,
    frame_timer: FrameTimer,
    frames_played: u64,
    active_triggers: NameSet,
    consumed_triggers: NameSet,
}

impl<H> View for Animator<H> {
    type V = AnimatorView<H>;

    closed spec fn view(&self) -> AnimatorView<H> {
        AnimatorView {
            states: self.states@,
            parameters: self.parameters@,
            current_state: self.current_state@,
            target_state: match self.target_state {
                Some(name) => Some(name@),
                None => None,
            },
            first_index: self.first_index,
            last_index: self.last_index,
            fps: self.fps,
            timer: self.frame_timer,
            frames_played: self.frames_played,
            active_triggers: self.active_triggers@,
            consumed_triggers: self.consumed_triggers@,
        }
    }
}

impl<H> Animator<H> {
    /// The tables and sets of the animator are in order.
    pub closed spec fn tables_wf(&self) -> bool {
        &&& self.states.wf()
        &&& self.parameters.wf()
        &&& self.active_triggers.wf()
        &&& self.consumed_triggers.wf()
    }

    /// The animator is in order: its tables are, and its view is.
    pub open spec fn wf(&self) -> bool {
        self.tables_wf() && self@.wf()
    }

    /// An animator with nothing registered.
    pub fn new() -> (animator: Self)
        ensures
            animator.wf(),
            animator@ == AnimatorView::<H>::initial(),
    {
        Animator {
            states: NameMap::new(),
            parameters: NameMap::new(),
            current_state: String::new(),
            target_state: None,
            first_index: 0,
            last_index: 0,
            fps: 0,
            frame_timer: FrameTimer::from_fps(0),
            frames_played: 0,
            active_triggers: NameSet::new(),
            consumed_triggers: NameSet::new(),
        }
    }

    /// The animator with `params` as its parameter store.
    pub fn with_params(self, params: NameMap<AnimatorParam>) -> (animator: Self)
        requires
            self.wf(),
            params.wf(),
        ensures
            animator.wf(),
            animator@ == self@.with_params(params@),
    {
        let mut animator = self;
        animator.parameters = params;
        animator
    }

    /// Puts `params` in place of the parameter store.
    pub fn set_params(&mut self, params: NameMap<AnimatorParam>)
        requires
            old(self).wf(),
            params.wf(),
        ensures
            final(self).wf(),
            final(self)@ == old(self)@.with_params(params@),
    {
        self.parameters = params;
    }

    /// The parameter store.
    pub fn parameters(&self) -> (params: &NameMap<AnimatorParam>)
        requires
            self.wf(),
        ensures
            params.wf(),
            params@ == self@.parameters,
    {
        &self.parameters
    }

    /// Registers the parameter `name`, unless there is one of that name.
    pub fn add_parameter(&mut self, name: &str, param: AnimatorParam)
        requires
            old(self).wf(),
        ensures
            final(self).wf(),
            final(self)@ == old(self)@.with_parameter(name@, param),
    {
        if !self.parameters.contains_key(name) {
            self.parameters.insert(name.to_owned(), param);
        }
    }

    /// Writes the `Bool` parameter `name`. Nothing happens if there is no
    /// such parameter or if it is of another type.
    pub fn set_bool(&mut self, name: &str, value: bool)
        requires
            old(self).wf(),
        ensures
            final(self).wf(),
            final(self)@ == old(self)@.with_bool(name@, value),
    {
        if let Some(AnimatorParam::Bool(_)) = self.parameters.get(name) {
            self.parameters.replace(name, AnimatorParam::Bool(value));
        }
    }

    /// The value of the `Bool` parameter `name`; `false` if there is no such
    /// parameter or if it is of another type.
    pub fn get_bool(&self, name: &str) -> (value: bool)
        requires
            self.wf(),
        ensures
            value == self@.get_bool(name@),
    {
        match self.parameters.get(name) {
            Some(AnimatorParam::Bool(value)) => *value,
            _ => false,
        }
    }

    /// Writes the `Float` parameter `name`. Nothing happens if there is no
    /// such parameter or if it is of another type.
    pub fn set_float(&mut self, name: &str, value: i64)
        requires
            old(self).wf(),
        ensures
            final(self).wf(),
            final(self)@ == old(self)@.with_float(name@, value),
    {
        if let Some(AnimatorParam::Float(_)) = self.parameters.get(name) {
            self.parameters.replace(name, AnimatorParam::Float(value));
        }
    }

    /// The value of the `Float` parameter `name`; zero if there is no such
    /// parameter or if it is of another type.
    pub fn get_float(&self, name: &str) -> (value: i64)
        requires
            self.wf(),
        ensures
            value == self@.get_float(name@),
    {
        match self.parameters.get(name) {
            Some(AnimatorParam::Float(value)) => *value,
            _ => 0,
        }
    }

    /// Sets the trigger `name`: raises its flag and makes it active. Nothing
    /// happens if there is no such parameter or if it is no trigger.
    pub fn set_trigger(&mut self, name: &str)
        requires
            old(self).wf(),
        ensures
            final(self).wf(),
            final(self)@ == old(self)@.with_trigger(name@),
    {
        if let Some(AnimatorParam::Trigger(_)) = self.parameters.get(name) {
            self.parameters.replace(name, AnimatorParam::Trigger(true));
            self.active_triggers.insert(name.to_owned());
        }
    }

    /// Whether the trigger `name` was set and not yet consumed.
    pub fn is_active(&self, name: &str) -> (active: bool)
        ensures
            active == self@.is_active(name@),
    {
        self.active_triggers.contains(name)
    }

    /// Whether `state` is the state that is playing.
    pub fn in_state(&self, state: String) -> (playing: bool)
        ensures
            playing == self@.in_state(state@),
    {
        self.current_state == state
    }

    /// Registers `state` under its name, in place of an earlier state of that
    /// name. The first state registered becomes the current state.
    pub fn add_state(&mut self, state: AnimationState<H>)
        requires
            old(self).wf(),
            state.wf(),
        ensures
            final(self).wf(),
            final(self)@ == old(self)@.with_state(state),
    {
        let name = state.name.clone();
        if self.states.is_empty() {
            self.current_state = name.clone();
        }
        self.states.insert(name, state);
    }

    /// Chooses the state to start in. If `state_name` is registered it
    /// becomes the current state, playing the frames `first_index` to
    /// `last_index` at `fps` frames per second, and the clock starts afresh.
    /// Nothing happens if no state of that name is registered.
    pub fn set_initial_state(
        &mut self,
        state_name: &str,
        first_index: usize,
        last_index: usize,
        fps: u8,
    )
        requires
            old(self).wf(),
            first_index <= last_index,
        ensures
            final(self).wf(),
            final(self)@ == old(self)@.with_initial_state(
                state_name@,
                first_index,
                last_index,
                fps,
            ),
    {
        if self.states.contains_key(state_name) {
            self.current_state = state_name.to_owned();
            self.first_index = first_index;
            self.last_index = last_index;
            self.fps = fps;
            self.frame_timer = self.timer_from_fps();
        }
    }

    /// The audio cue of the state that is playing, if that state is
    /// registered and has one.
    pub fn get_cur_audio(&self) -> (cue: Option<String>)
        requires
            self.wf(),
        ensures
            match cue {
                Some(path) => self@.cur_audio() == Some(path@),
                None => self@.cur_audio() is None,
            },
    {
        match self.states.get(self.current_state.as_str()) {
            Some(state) => match &state.audio_path {
                Some(path) => Some(path.clone()),
                None => None,
            },
            None => None,
        }
    }

    /// A fresh clock for one frame at the animator's frame rate.
    pub fn timer_from_fps(&self) -> (timer: FrameTimer)
        ensures
            timer == FrameTimer::fresh(self@.fps),
            timer.wf(),
            !timer.is_finished(),
    {
        FrameTimer::from_fps(self.fps)
    }

    /// The name of the state that is playing.
    pub fn current_state(&self) -> (name: &str)
        ensures
            name@ == self@.current_state,
    {
        self.current_state.as_str()
    }

    /// The name of the state that the next update switches to, if a
    /// transition was selected.
    pub fn target_state(&self) -> (name: Option<&str>)
        ensures
            match name {
                Some(target) => self@.target_state == Some(target@),
                None => self@.target_state is None,
            },
    {
        match &self.target_state {
            Some(target) => Some(target.as_str()),
            None => None,
        }
    }

    /// The first sprite frame of what is playing.
    pub fn first_index(&self) -> (index: usize)
        ensures
            index == self@.first_index,
    {
        self.first_index
    }

    /// The last sprite frame of what is playing.
    pub fn last_index(&self) -> (index: usize)
        ensures
            index == self@.last_index,
    {
        self.last_index
    }

    /// Frames per second.
    pub fn fps(&self) -> (fps: u8)
        ensures
            fps == self@.fps,
    {
        self.fps
    }

    /// How many frames the current state has played; for a looping state,
    /// since it last wrapped round.
    pub fn frames_played(&self) -> (frames: u64)
        ensures
            frames == self@.frames_played,
    {
        self.frames_played
    }

    /// The clock that says when the next frame is due.
    pub fn frame_timer(&self) -> (timer: FrameTimer)
        ensures
            timer == self@.timer,
    {
        self.frame_timer
    }

    /// The state graph.
    pub fn states(&self) -> (states: &NameMap<AnimationState<H>>)
        requires
            self.wf(),
        ensures
            states.wf(),
            states@ == self@.states,
    {
        &self.states
    }

    /// The triggers that were set and not yet consumed.
    pub fn active_triggers(&self) -> (triggers: &NameSet)
        requires
            self.wf(),
        ensures
            triggers.wf(),
            triggers@ == self@.active_triggers,
    {
        &self.active_triggers
    }

    /// The triggers that the pending switch will consume.
    pub fn consumed_triggers(&self) -> (triggers: &NameSet)
        requires
            self.wf(),
        ensures
            triggers.wf(),
            triggers@ == self@.consumed_triggers,
    {
        &self.consumed_triggers
    }

    /// Whether `condition` holds of the parameters as they stand.
    pub fn check_condition(&self, condition: &Condition) -> (holds: bool)
        requires
            self.wf(),
        ensures
            holds == self@.condition_holds(*condition),
    {
        let name = condition.param_name.as_str();
        match self.parameters.get(name) {
            Some(param) => match (*param, condition.value) {
                (AnimatorParam::Bool(current), AnimatorParam::Bool(expected)) => {
                    match condition.operator {
                        ConditionOperator::Equals => current == expected,
                        _ => false,
                    }
                },
                (AnimatorParam::Float(current), AnimatorParam::Float(expected)) => {
                    match condition.operator {
                        ConditionOperator::Equals => {
                            let difference: i128 = current as i128 - expected as i128;
                            -(EPSILON as i128) < difference && difference < EPSILON as i128
                        },
                        ConditionOperator::Greater => current > expected,
                        ConditionOperator::Less => current < expected,
                        ConditionOperator::LessOrEqual => current <= expected,
                    }
                },
                (AnimatorParam::Trigger(_), AnimatorParam::Trigger(expected)) => {
                    match condition.operator {
                        ConditionOperator::Equals => self.active_triggers.contains(name)
                            == expected,
                        _ => false,
                    }
                },
                _ => false,
            },
            None => false,
        }
    }

    /// Whether all of `conditions` hold.
    fn all_conditions_met(&self, conditions: &Vec<Condition>) -> (met: bool)
        requires
            self.wf(),
        ensures
            met == self@.all_hold(conditions@),
    {
        let mut i: usize = 0;
        while i < conditions.len()
            invariant
                self.wf(),
                i <= conditions.len(),
                forall|j: int| 0 <= j < i ==> self@.condition_holds(#[trigger] conditions@[j]),
            decreases conditions.len() - i,
        {
            if !self.check_condition(&conditions[i]) {
                return false;
            }
            i += 1;
        }
        true
    }

    /// The play position: how much of one play-through the current state
    /// has played, in billionths and rounded down; `i64::MAX` if it is more
    /// than that.
    pub fn normalized_time(&self) -> (position: i64)
        requires
            self.wf(),
        ensures
            position == if self@.normalized_time() > i64::MAX {
                i64::MAX as int
            } else {
                self@.normalized_time()
            },
    {
        let frames: u128 = self.frames_played as u128;
        let count: u128 = (self.last_index - self.first_index) as u128 + 1;
        assert(frames * 1_000_000_000 <= 0xffff_ffff_ffff_ffff * 1_000_000_000) by (nonlinear_arith)
            requires
                0 <= frames <= 0xffff_ffff_ffff_ffff,
        ;
        let position: u128 = frames * 1_000_000_000 / count;
        if position > i64::MAX as u128 {
            i64::MAX
        } else {
            position as i64
        }
    }

    /// Whether the play position has reached `exit_time`.
    fn exit_time_reached(&self, exit_time: i64) -> (reached: bool)
        requires
            self.wf(),
        ensures
            reached == !self@.before(exit_time),
    {
        self.normalized_time() >= exit_time
    }

    /// Whether `transition` can be taken now.
    fn transition_ready(&self, transition: &Transition) -> (ready: bool)
        requires
            self.wf(),
        ensures
            ready == self@.ready(*transition),
    {
        if transition.has_exit_time && !self.exit_time_reached(transition.exit_time) {
            return false;
        }
        self.all_conditions_met(&transition.conditions)
    }

    /// The first of `transitions` that can be taken now.
    fn select_transition(&self, transitions: &Vec<Transition>) -> (chosen: Option<usize>)
        requires
            self.wf(),
        ensures
            match chosen {
                Some(i) => self@.first_ready(transitions@) == Some(i as int) && i
                    < transitions.len(),
                None => self@.first_ready(transitions@) is None,
            },
    {
        let mut i: usize = 0;
        while i < transitions.len()
            invariant
                self.wf(),
                i <= transitions.len(),
                self@.first_ready(transitions@) == self@.first_ready_from(transitions@, i as int),
            decreases transitions.len() - i,
        {
            if self.transition_ready(&transitions[i]) {
                return Some(i);
            }
            i += 1;
        }
        None
    }

    /// Resets the trigger `name`: lowers its flag and makes it inactive.
    /// Nothing happens if there is no such parameter or if it is no trigger.
    fn reset_trigger(&mut self, name: &str)
        requires
            old(self).wf(),
        ensures
            final(self).wf(),
            final(self)@ == old(self)@.without_triggers(set![name@]),
    {
        if let Some(AnimatorParam::Trigger(_)) = self.parameters.get(name) {
            self.parameters.replace(name, AnimatorParam::Trigger(false));
            self.active_triggers.remove(name);
        }
    }

    /// Resets every trigger that the pending switch consumes, and forgets
    /// them.
    fn reset_consumed_triggers(&mut self)
        requires
            old(self).wf(),
        ensures
            final(self).wf(),
            final(self)@ == (AnimatorView {
                consumed_triggers: Set::empty(),
                ..old(self)@.without_triggers(old(self)@.consumed_triggers)
            }),
    {
        let mut consumed = NameSet::new();
        core::mem::swap(&mut consumed, &mut self.consumed_triggers);
        let ghost start = self@;
        let ghost names = consumed.listing();
        assert(start.without_triggers(names.take(0).to_set()) == start);
        let mut i: usize = 0;
        while i < consumed.len()
            invariant
                self.wf(),
                i <= names.len(),
                names == consumed.listing(),
                self@ == start.without_triggers(names.take(i as int).to_set()),
            decreases names.len() - i,
        {
            let ghost done = names.take(i as int).to_set();
            let name = consumed.name_at(i);
            self.reset_trigger(name.as_str());
            i += 1;
            proof {
                assert(names.take(i as int) == names.take(i - 1).push(name@));
                assert(names.take(i as int).to_set() == done.insert(name@)) by {
                    names.take(i - 1).lemma_push_to_set_commute(name@);
                }
                assert(self@ == start.without_triggers(done.insert(name@)));
            }
        }
        assert(names.take(i as int) == names);
    }

    /// Plays one frame: advances the play position and the sprite frame, and
    /// starts the clock afresh.
    fn advance_frame(&mut self, looping: bool, atlas_index: &mut usize)
        requires
            old(self).wf(),
            *old(atlas_index) < usize::MAX || old(self)@.last_index == usize::MAX,
        ensures
            final(self).wf(),
            final(self)@ == old(self)@.after_frame(looping),
            *final(atlas_index) == final(self)@.next_frame_index(*old(atlas_index)),
    {
        let span: u64 = (self.last_index - self.first_index) as u64;
        if self.fps > 0 && self.frames_played < u64::MAX {
            self.frames_played = self.frames_played + 1;
        }
        if looping {
            self.frames_played = (self.frames_played as u128 % (span as u128 + 1)) as u64;
        }
        self.frame_timer = self.timer_from_fps();
        proof {
            lemma_play_position(self@.frames_played as int, self@.frame_count(), 0);
        }
        if *atlas_index == self.last_index {
            if self.frames_played <= span {
                *atlas_index = self.first_index;
            }
        } else {
            *atlas_index = *atlas_index + 1;
        }
    }
}

/// Adds to `consumed` the parameters that `conditions` name and that
/// `parameters` holds as triggers.
fn note_triggers(
    parameters: &NameMap<AnimatorParam>,
    conditions: &Vec<Condition>,
    consumed: &mut NameSet,
)
    requires
        parameters.wf(),
        old(consumed).wf(),
    ensures
        final(consumed).wf(),
        final(consumed)@ == old(consumed)@.union(
            triggers_among(parameters@, names_in(conditions@)),
        ),
{
    let ghost start = consumed@;
    assert(names_in(conditions@.take(0)) == Set::<Seq<char>>::empty());
    assert(start.union(triggers_among(parameters@, names_in(conditions@.take(0)))) == start);
    let mut i: usize = 0;
    while i < conditions.len()
        invariant
            parameters.wf(),
            consumed.wf(),
            i <= conditions.len(),
            consumed@ == start.union(
                triggers_among(parameters@, names_in(conditions@.take(i as int))),
            ),
        decreases conditions.len() - i,
    {
        let name = &conditions[i].param_name;
        if let Some(AnimatorParam::Trigger(_)) = parameters.get(name.as_str()) {
            consumed.insert(name.clone());
        }
        i += 1;
        proof {
            let before = conditions@.take(i - 1);
            let after = conditions@.take(i as int);
            assert(after == before.push(conditions@[i - 1]));
            assert(names_in(after) == names_in(before).insert(name@)) by {
                assert forall|k: Seq<char>|
                    names_in(after).contains(k) <==> names_in(before).insert(name@).contains(
                        k,
                    ) by {
                    if names_in(after).contains(k) {
                        let j = choose|j: int|
                            0 <= j < after.len() && #[trigger] after[j].param_name@ == k;
                        if j < i - 1 {
                            assert(before[j].param_name@ == k);
                        }
                    }
                    if names_in(before).contains(k) {
                        let j = choose|j: int|
                            0 <= j < before.len() && #[trigger] before[j].param_name@ == k;
                        assert(after[j].param_name@ == k);
                    }
                    if k == name@ {
                        assert(after[i - 1].param_name@ == k);
                    }
                }
            }
        }
    }
    assert(conditions@.take(i as int) == conditions@);
}

impl<H: Copy> Animator<H> {
    /// An update while no switch is pending: the clock ticks, a due frame is
    /// played, and the first transition that can be taken is selected.
    fn play(&mut self, delta_nanos: u64, atlas_index: &mut usize)
        requires
            old(self).wf(),
            *old(atlas_index) < usize::MAX || old(self)@.last_index == usize::MAX,
        ensures
            final(self).wf(),
            final(self)@ == old(self)@.tick(delta_nanos, *old(atlas_index)).next,
            *final(atlas_index) == old(self)@.tick(delta_nanos, *old(atlas_index)).atlas_index,
    {
        let looping = match self.states.get(self.current_state.as_str()) {
            Some(state) => state.loop_animation,
            None => {
                return ;
            },
        };
        let mut timer = self.frame_timer;
        if timer.tick(delta_nanos) {
            self.advance_frame(looping, atlas_index);
        } else {
            self.frame_timer = timer;
        }
        if let Some(state) = self.states.get(self.current_state.as_str()) {
            if let Some(i) = self.select_transition(&state.transitions) {
                let transition = &state.transitions[i];
                note_triggers(
                    &self.parameters,
                    &transition.conditions,
                    &mut self.consumed_triggers,
                );
                self.target_state = Some(transition.target_state.clone());
            }
        }
    }

    /// An update while a switch is pending: the target becomes the current
    /// state and the triggers that brought the switch about are consumed.
    fn apply_switch(&mut self, atlas_index: &mut usize) -> (outcome: Update<H>)
        requires
            old(self).wf(),
            old(self)@.target_state is Some,
        ensures
            final(self).wf(),
            final(self)@ == old(self)@.switch().next,
            *final(atlas_index) == old(self)@.switch().atlas_index,
            outcome == old(self)@.switch().outcome,
    {
        let on_exit = match self.states.get(self.current_state.as_str()) {
            Some(state) => state.on_exit,
            None => None,
        };
        self.reset_consumed_triggers();
        if let Some(target) = self.target_state.take() {
            self.current_state = target;
        }
        self.frames_played = 0;
        self.frame_timer = self.timer_from_fps();
        let entered = match self.states.get(self.current_state.as_str()) {
            Some(state) => Some((state.first_index, state.last_index, state.on_enter)),
            None => None,
        };
        let on_enter = match entered {
            Some((first_index, last_index, on_enter)) => {
                self.first_index = first_index;
                self.last_index = last_index;
                on_enter
            },
            None => None,
        };
        *atlas_index = self.first_index;
        Update { switched: true, on_exit, on_enter }
    }

    /// Advances the animator by `delta_nanos` nanoseconds and keeps
    /// `atlas_index`, the sprite frame on show, up to date.
    ///
    /// If the previous update selected a transition, this one completes the
    /// switch: the target becomes the current state and `atlas_index` its
    /// first frame, the triggers that the transition used are reset, and the
    /// outcome says `switched` and hands back the hooks to run.
    ///
    /// Otherwise the clock ticks; when a frame period has elapsed the next
    /// frame is shown; and the first transition of the current state that
    /// can be taken is selected for the next update. The outcome then says
    /// that nothing was switched.
    ///
    /// The frame index must leave room to count up: it may be `usize::MAX`
    /// only where that is the last frame of what is playing, or while a
    /// switch is pending.
    pub fn update(&mut self, delta_nanos: u64, atlas_index: &mut usize) -> (outcome: Update<H>)
        requires
            old(self).wf(),
            *old(atlas_index) < usize::MAX || old(self)@.last_index == usize::MAX
                || old(self)@.target_state is Some,
        ensures
            final(self).wf(),
            final(self)@ == old(self)@.step(delta_nanos, *old(atlas_index)).next,
            *final(atlas_index) == old(self)@.step(delta_nanos, *old(atlas_index)).atlas_index,
            outcome == old(self)@.step(delta_nanos, *old(atlas_index)).outcome,
    {
        if self.target_state.is_some() {
            self.apply_switch(atlas_index)
        } else {
            self.play(delta_nanos, atlas_index);
            Update { switched: false, on_exit: None, on_enter: None }
        }
    }
}

} // verus!
