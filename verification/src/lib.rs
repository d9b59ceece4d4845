//! A parameterised animation state machine for sprite-based characters.
//!
//! An [`Animator`] holds a table of typed parameters and a graph of
//! animation states. Its `update`, called once per frame, plays the frames of
//! the current state and follows the first transition whose conditions hold,
//! switching state one update after the transition was selected.
//!
//! - [`graph`] holds the vocabulary: parameters, conditions, transitions,
//!   states.
//! - [`animator`] holds the animator itself.
//! - [`model`] says what every method computes, as functions on
//!   [`model::AnimatorView`].
//! - [`laws`] proves what holds of every animator.
//! - [`timer`] is the frame clock, and [`names`] the name-keyed tables.
//!
//! Time is counted in whole nanoseconds and real quantities in billionths,
//! so that everything the animator does is exact.

pub mod animator;
pub mod graph;
pub mod laws;
pub mod model;
pub mod names;
pub mod timer;

pub use animator::Animator;
pub use graph::{AnimationState, AnimatorParam, Condition, ConditionOperator, Transition, Update};
