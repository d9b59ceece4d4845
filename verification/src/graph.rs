//! The vocabulary of a state graph: parameters, conditions, transitions and
//! animation states.
//!
//! Real quantities (the value of a `Float` parameter, an exit time) are held
//! as fixed-point numbers: a whole number of billionths, so that [`UNIT`]
//! stands for 1.0.

use vstd::prelude::*;

verus! {

/// The fixed-point number that stands for 1.0.
pub const UNIT: i64 = 1_000_000_000;

/// Two `Float` values count as equal when they differ by less than this many
/// billionths.
pub const EPSILON: i64 = 120;

/// The typed value of a parameter.
#[derive(Debug, Clone, Copy, PartialEq, Eq)]
pub enum AnimatorParam {
    /// A flag that stays as it was last set.
    Bool(bool),
    /// A real quantity, in billionths.
    Float(i64),
    /// A one-shot flag, reset when the transition that used it completes.
    Trigger(bool),
}

/// How a condition compares a parameter with its expected value.
#[derive(Debug, Clone, Copy, PartialEq, Eq)]
pub enum ConditionOperator {
    Equals,
    Greater,
    Less,
    LessOrEqual,
}

/// One guard of a transition: a parameter, a comparison and the value to
/// compare with.
#[derive(Debug, Clone)]
pub struct Condition {
    pub param_name: String,
    pub operator: ConditionOperator,
    pub value: AnimatorParam,
}

/// A guarded edge of the state graph. It can be taken when all its conditions
/// hold and, if it has an exit time, once the source state has played that
/// fraction of one play-through.
#[derive(Debug, Clone)]
pub struct Transition {
    pub conditions: Vec<Condition>,
    pub target_state: String,
    pub has_exit_time: bool,
    /// The fraction of one play-through, in billionths.
    pub exit_time: i64,
}

/// A node of the state graph: a run of sprite frames with the transitions that
/// leave it. `H` is whatever the host uses to name a side-effect hook.
#[derive(Debug, Clone)]
pub struct AnimationState<H> {
    pub name: String,
    /// The first sprite frame of the state.
    pub first_index: usize,
    /// The last sprite frame of the state, itself included.
    pub last_index: usize,
    /// The ways out of the state, in order of priority.
    pub transitions: Vec<Transition>,
    pub loop_animation: bool,
    /// The hook to run when the state is entered.
    pub on_enter: Option<H>,
    /// The hook to run when the state is left.
    pub on_exit: Option<H>,
    /// The audio cue to play when the state is entered.
    pub audio_path: Option<String>,
}

impl<H> AnimationState<H> {
    /// The frame range holds at least one frame.
    pub open spec fn wf(self) -> bool {
        self.first_index <= self.last_index
    }

    /// The audio cue as characters.
    pub open spec fn audio(self) -> Option<Seq<char>> {
        match self.audio_path {
            Some(path) => Some(path@),
            None => None,
        }
    }
}

impl<H> Default for AnimationState<H> {
    /// A nameless state of the single frame 0, with no transition, hook or
    /// audio cue, that does not loop.
    fn default() -> (state: Self)
        ensures
            state.name@ == Seq::<char>::empty(),
            state.first_index == 0,
            state.last_index == 0,
            state.transitions@ == Seq::<Transition>::empty(),
            !state.loop_animation,
            state.on_enter is None,
            state.on_exit is None,
            state.audio_path is None,
            state.wf(),
    {
        AnimationState {
            name: String::new(),
            first_index: 0,
            last_index: 0,
            transitions: Vec::new(),
            loop_animation: false,
            on_enter: None,
            on_exit: None,
            audio_path: None,
        }
    }
}

/// What one call of `update` did: whether it completed a state switch, and
/// the hooks of the state left and of the state entered, which the host is to
/// run in this order.
#[derive(Debug, Clone, Copy, PartialEq, Eq)]
pub struct Update<H> {
    pub switched: bool,
    pub on_exit: Option<H>,
    pub on_enter: Option<H>,
}

} // verus!
