use sprite_animator::animator::Animator;
use sprite_animator::graph::{
    AnimationState, AnimatorParam, Condition, ConditionOperator, Transition, Update, UNIT,
};

const FRAME: u64 = 125_000_000;

fn equals(name: &str, value: AnimatorParam) -> Condition {
    Condition { param_name: name.to_string(), operator: ConditionOperator::Equals, value }
}

fn edge(conditions: Vec<Condition>, target: &str) -> Transition {
    Transition { conditions, target_state: target.to_string(), has_exit_time: false, exit_time: 0 }
}

fn edge_after(conditions: Vec<Condition>, target: &str, exit_time: i64) -> Transition {
    Transition { conditions, target_state: target.to_string(), has_exit_time: true, exit_time }
}

fn state(
    name: &str,
    first_index: usize,
    last_index: usize,
    loop_animation: bool,
    transitions: Vec<Transition>,
) -> AnimationState<u32> {
    AnimationState {
        name: name.to_string(),
        first_index,
        last_index,
        transitions,
        loop_animation,
        ..Default::default()
    }
}

const STAY: Update<u32> = Update { switched: false, on_exit: None, on_enter: None };

#[test]
fn looping_state_cycles_through_its_frames() {
    let mut animator = Animator::new();
    animator.add_state(state("Idle", 2, 5, true, vec![]));
    animator.set_initial_state("Idle", 2, 5, 8);
    let mut atlas = 2usize;
    let mut shown = Vec::new();
    let mut played = Vec::new();
    for _ in 0..9 {
        assert_eq!(animator.update(FRAME, &mut atlas), STAY);
        shown.push(atlas);
        played.push(animator.frames_played());
    }
    assert_eq!(shown, vec![3, 4, 5, 2, 3, 4, 5, 2, 3]);
    assert_eq!(played, vec![1, 2, 3, 0, 1, 2, 3, 0, 1]);
}

#[test]
fn state_that_does_not_loop_holds_its_last_frame() {
    let mut animator = Animator::new();
    animator.add_state(state("Die", 10, 12, false, vec![]));
    animator.set_initial_state("Die", 10, 12, 8);
    let mut atlas = 10usize;
    let mut shown = Vec::new();
    for _ in 0..6 {
        animator.update(FRAME, &mut atlas);
        shown.push(atlas);
    }
    assert_eq!(shown, vec![11, 12, 12, 12, 12, 12]);
    assert_eq!(animator.frames_played(), 6);
    assert_eq!(animator.normalized_time(), 2 * UNIT);
}

#[test]
fn state_that_does_not_loop_wraps_once_from_a_last_frame_reached_early() {
    let mut animator = Animator::new();
    animator.add_state(state("Die", 10, 12, false, vec![]));
    animator.set_initial_state("Die", 10, 12, 8);
    let mut atlas = 12usize;
    animator.update(FRAME, &mut atlas);
    assert_eq!(atlas, 10);
    animator.update(FRAME, &mut atlas);
    assert_eq!(atlas, 11);
    animator.update(FRAME, &mut atlas);
    assert_eq!(atlas, 12);
    animator.update(FRAME, &mut atlas);
    assert_eq!(atlas, 12);
}

#[test]
fn frame_index_outside_the_range_just_counts_up() {
    let mut animator = Animator::new();
    animator.add_state(state("Idle", 2, 5, true, vec![]));
    animator.set_initial_state("Idle", 2, 5, 8);
    let mut atlas = 40usize;
    animator.update(FRAME, &mut atlas);
    assert_eq!(atlas, 41);
}

#[test]
fn normalized_time_is_the_fraction_played() {
    let mut animator = Animator::new();
    animator.add_state(state("Attack", 0, 7, false, vec![]));
    animator.add_state(state("Jump", 0, 2, false, vec![]));
    animator.set_initial_state("Attack", 0, 7, 8);
    let mut atlas = 0usize;
    assert_eq!(animator.normalized_time(), 0);
    animator.update(FRAME, &mut atlas);
    assert_eq!(animator.normalized_time(), 125_000_000);
    animator.update(FRAME, &mut atlas);
    animator.update(FRAME, &mut atlas);
    assert_eq!(animator.normalized_time(), 375_000_000);

    let mut animator = Animator::new();
    animator.add_state(state("Jump", 0, 2, false, vec![]));
    animator.set_initial_state("Jump", 0, 2, 8);
    animator.update(FRAME, &mut atlas);
    assert_eq!(animator.normalized_time(), 333_333_333);
    animator.update(FRAME, &mut atlas);
    assert_eq!(animator.normalized_time(), 666_666_666);
    animator.update(FRAME, &mut atlas);
    assert_eq!(animator.normalized_time(), UNIT);
}

#[test]
fn clock_adds_up_short_ticks() {
    let mut animator = Animator::new();
    animator.add_state(state("Idle", 0, 3, true, vec![]));
    animator.set_initial_state("Idle", 0, 3, 8);
    let mut atlas = 0usize;
    animator.update(60_000_000, &mut atlas);
    assert_eq!((atlas, animator.frames_played()), (0, 0));
    assert_eq!(animator.frame_timer().elapsed_nanos, 60_000_000);
    animator.update(60_000_000, &mut atlas);
    assert_eq!((atlas, animator.frames_played()), (0, 0));
    assert_eq!(animator.frame_timer().elapsed_nanos, 120_000_000);
    animator.update(60_000_000, &mut atlas);
    assert_eq!((atlas, animator.frames_played()), (1, 1));
    assert_eq!(animator.frame_timer().elapsed_nanos, 0);
}

#[test]
fn long_tick_plays_one_frame_only() {
    let mut animator = Animator::new();
    animator.add_state(state("Idle", 0, 3, true, vec![]));
    animator.set_initial_state("Idle", 0, 3, 8);
    let mut atlas = 0usize;
    animator.update(10 * FRAME, &mut atlas);
    assert_eq!((atlas, animator.frames_played()), (1, 1));
    assert_eq!(animator.frame_timer().elapsed_nanos, 0);
    animator.update(u64::MAX, &mut atlas);
    assert_eq!((atlas, animator.frames_played()), (2, 2));
}

#[test]
fn frame_is_due_when_a_twelfth_of_a_second_is_over() {
    let mut animator = Animator::new();
    animator.add_state(state("Idle", 0, 3, true, vec![]));
    animator.set_initial_state("Idle", 0, 3, 12);
    let mut atlas = 0usize;
    animator.update(83_333_333, &mut atlas);
    assert_eq!(atlas, 0);
    animator.update(1, &mut atlas);
    assert_eq!(atlas, 1);
    animator.update(83_333_334, &mut atlas);
    assert_eq!(atlas, 2);
}

#[test]
fn animator_without_a_rate_shows_a_frame_a_second_and_plays_none() {
    let mut animator = Animator::new();
    animator.add_state(state(
        "Idle",
        0,
        0,
        false,
        vec![edge_after(vec![], "Idle", 1)],
    ));
    let mut atlas = 5usize;
    animator.update(999_999_999, &mut atlas);
    assert_eq!(atlas, 5);
    animator.update(1, &mut atlas);
    assert_eq!(atlas, 6);
    assert_eq!(animator.frames_played(), 0);
    assert_eq!(animator.normalized_time(), 0);
    assert_eq!(animator.target_state(), None);
    assert_eq!(animator.frame_timer().period_nanos, 1_000_000_000);
    assert_eq!(animator.frame_timer().elapsed_nanos, 0);
}

#[test]
fn update_does_nothing_while_the_current_state_is_unknown() {
    let mut animator: Animator<u32> = Animator::new();
    animator.add_parameter("go", AnimatorParam::Bool(true));
    let mut atlas = 3usize;
    for _ in 0..5 {
        assert_eq!(animator.update(10 * FRAME, &mut atlas), STAY);
    }
    assert_eq!(atlas, 3);
    assert_eq!(animator.frames_played(), 0);
    assert_eq!(animator.frame_timer().elapsed_nanos, 0);
    assert_eq!(animator.target_state(), None);
}

#[test]
fn no_transition_ready_means_the_state_plays_on() {
    let mut animator = Animator::new();
    animator.add_parameter("go", AnimatorParam::Bool(false));
    animator.add_state(state(
        "Idle",
        0,
        3,
        true,
        vec![edge(vec![equals("go", AnimatorParam::Bool(true))], "Walk")],
    ));
    animator.add_state(state("Walk", 4, 9, true, vec![]));
    animator.set_initial_state("Idle", 0, 3, 8);
    let mut atlas = 0usize;
    for _ in 0..20 {
        assert_eq!(animator.update(FRAME, &mut atlas), STAY);
        assert_eq!(animator.target_state(), None);
        assert!(animator.in_state("Idle".to_string()));
    }
}

#[test]
fn transition_is_selected_without_waiting_for_a_frame() {
    let mut animator = Animator::new();
    animator.add_parameter("go", AnimatorParam::Bool(true));
    animator.add_state(state(
        "Idle",
        0,
        3,
        true,
        vec![edge(vec![equals("go", AnimatorParam::Bool(true))], "Walk")],
    ));
    animator.add_state(state("Walk", 4, 9, true, vec![]));
    animator.set_initial_state("Idle", 0, 3, 8);
    let mut atlas = 0usize;
    assert_eq!(animator.update(1, &mut atlas), STAY);
    assert_eq!(atlas, 0);
    assert_eq!(animator.target_state(), Some("Walk"));
    assert!(animator.update(1, &mut atlas).switched);
    assert_eq!(atlas, 4);
}

#[test]
fn all_conditions_of_a_transition_must_hold() {
    let mut animator = Animator::new();
    animator.add_parameter("grounded", AnimatorParam::Bool(true));
    animator.add_parameter("speed", AnimatorParam::Float(0));
    animator.add_state(state(
        "Idle",
        0,
        3,
        true,
        vec![edge(
            vec![
                equals("grounded", AnimatorParam::Bool(true)),
                Condition {
                    param_name: "speed".to_string(),
                    operator: ConditionOperator::Greater,
                    value: AnimatorParam::Float(UNIT / 2),
                },
            ],
            "Run",
        )],
    ));
    animator.add_state(state("Run", 4, 9, true, vec![]));
    animator.set_initial_state("Idle", 0, 3, 8);
    let mut atlas = 0usize;
    animator.update(FRAME, &mut atlas);
    assert_eq!(animator.target_state(), None);
    animator.set_float("speed", UNIT);
    animator.set_bool("grounded", false);
    animator.update(FRAME, &mut atlas);
    assert_eq!(animator.target_state(), None);
    animator.set_bool("grounded", true);
    animator.update(FRAME, &mut atlas);
    assert_eq!(animator.target_state(), Some("Run"));
}

#[test]
fn first_ready_transition_wins() {
    let always_a = edge(vec![], "A");
    let always_b = edge(vec![], "B");

    let mut animator = Animator::new();
    animator.add_state(state("Start", 0, 0, true, vec![always_a.clone(), always_b.clone()]));
    animator.set_initial_state("Start", 0, 0, 8);
    let mut atlas = 0usize;
    animator.update(FRAME, &mut atlas);
    assert_eq!(animator.target_state(), Some("A"));

    let mut animator = Animator::new();
    animator.add_state(state("Start", 0, 0, true, vec![always_b, always_a]));
    animator.set_initial_state("Start", 0, 0, 8);
    animator.update(FRAME, &mut atlas);
    assert_eq!(animator.target_state(), Some("B"));
}

#[test]
fn transitions_that_are_not_ready_are_passed_over() {
    let mut animator = Animator::new();
    animator.add_parameter("a", AnimatorParam::Bool(false));
    animator.add_parameter("b", AnimatorParam::Bool(true));
    animator.add_state(state(
        "Start",
        0,
        0,
        true,
        vec![
            edge(vec![equals("a", AnimatorParam::Bool(true))], "A"),
            edge(vec![equals("missing", AnimatorParam::Bool(false))], "M"),
            edge(vec![equals("b", AnimatorParam::Bool(true))], "B"),
            edge(vec![], "C"),
        ],
    ));
    animator.set_initial_state("Start", 0, 0, 8);
    let mut atlas = 0usize;
    animator.update(FRAME, &mut atlas);
    assert_eq!(animator.target_state(), Some("B"));
}

#[test]
fn exit_time_one_waits_for_a_whole_play_through() {
    let mut animator = Animator::new();
    animator.add_state(state(
        "Attack",
        0,
        7,
        false,
        vec![edge_after(vec![], "Idle", UNIT)],
    ));
    animator.add_state(state("Idle", 8, 11, true, vec![]));
    animator.set_initial_state("Attack", 0, 7, 8);
    let mut atlas = 0usize;
    for tick in 1..=7u64 {
        assert_eq!(animator.update(FRAME, &mut atlas), STAY);
        assert_eq!(animator.target_state(), None);
        assert_eq!(animator.frames_played(), tick);
        assert!(animator.normalized_time() < UNIT);
    }
    assert_eq!(atlas, 7);
    assert_eq!(animator.update(FRAME, &mut atlas), STAY);
    assert_eq!(animator.normalized_time(), UNIT);
    assert_eq!(animator.target_state(), Some("Idle"));
    assert_eq!(atlas, 7);
    assert!(animator.update(FRAME, &mut atlas).switched);
    assert!(animator.in_state("Idle".to_string()));
    assert_eq!(atlas, 8);
}

#[test]
fn exit_time_gates_even_when_conditions_hold() {
    let mut animator = Animator::new();
    animator.add_parameter("go", AnimatorParam::Bool(true));
    animator.add_state(state(
        "Attack",
        0,
        3,
        false,
        vec![edge_after(vec![equals("go", AnimatorParam::Bool(true))], "Idle", UNIT / 2)],
    ));
    animator.add_state(state("Idle", 8, 11, true, vec![]));
    animator.set_initial_state("Attack", 0, 3, 8);
    let mut atlas = 0usize;
    animator.update(FRAME, &mut atlas);
    assert_eq!(animator.normalized_time(), 250_000_000);
    assert_eq!(animator.target_state(), None);
    animator.update(FRAME, &mut atlas);
    assert_eq!(animator.normalized_time(), 500_000_000);
    assert_eq!(animator.target_state(), Some("Idle"));
}

#[test]
fn exit_time_reached_still_needs_the_conditions() {
    let mut animator = Animator::new();
    animator.add_parameter("go", AnimatorParam::Bool(false));
    animator.add_state(state(
        "Attack",
        0,
        1,
        false,
        vec![edge_after(vec![equals("go", AnimatorParam::Bool(true))], "Idle", UNIT)],
    ));
    animator.add_state(state("Idle", 8, 11, true, vec![]));
    animator.set_initial_state("Attack", 0, 1, 8);
    let mut atlas = 0usize;
    for _ in 0..5 {
        animator.update(FRAME, &mut atlas);
        assert_eq!(animator.target_state(), None);
    }
    animator.set_bool("go", true);
    animator.update(1, &mut atlas);
    assert_eq!(animator.target_state(), Some("Idle"));
}

#[test]
fn exit_time_of_zero_or_less_gates_nothing() {
    for exit_time in [0, -1, i64::MIN] {
        let mut animator = Animator::new();
        animator.add_state(state(
            "Attack",
            0,
            3,
            false,
            vec![edge_after(vec![], "Idle", exit_time)],
        ));
        animator.set_initial_state("Attack", 0, 3, 8);
        let mut atlas = 0usize;
        animator.update(1, &mut atlas);
        assert_eq!(animator.target_state(), Some("Idle"));
    }
}

#[test]
fn exit_time_one_is_out_of_reach_of_a_looping_state() {
    let mut animator = Animator::new();
    animator.add_state(state(
        "Idle",
        0,
        3,
        true,
        vec![edge_after(vec![], "Walk", UNIT)],
    ));
    animator.add_state(state("Walk", 4, 9, true, vec![]));
    animator.set_initial_state("Idle", 0, 3, 8);
    let mut atlas = 0usize;
    for _ in 0..100 {
        assert_eq!(animator.update(FRAME, &mut atlas), STAY);
        assert_eq!(animator.target_state(), None);
    }
}

#[test]
fn looping_state_stays_within_one_play_through() {
    for (last_index, fps, delta) in [
        (3usize, 8u8, FRAME),
        (5, 12, 83_333_334),
        (0, 60, 16_666_667),
        (6, 10, 37_000_000),
    ] {
        let mut animator = Animator::new();
        animator.add_state(state("Idle", 0, last_index, true, vec![]));
        animator.set_initial_state("Idle", 0, last_index, fps);
        let mut atlas = 0usize;
        for _ in 0..1000 {
            animator.update(delta, &mut atlas);
            assert!(animator.normalized_time() >= 0);
            assert!(animator.normalized_time() < UNIT);
            assert!(animator.frames_played() <= last_index as u64);
            assert!(atlas <= last_index);
        }
    }
}

#[test]
fn switch_resets_play_position_clock_and_range() {
    let mut animator = Animator::new();
    animator.add_state(state("Attack", 0, 7, false, vec![edge_after(vec![], "Idle", UNIT / 4)]));
    animator.add_state(state("Idle", 8, 11, true, vec![]));
    animator.set_initial_state("Attack", 0, 7, 8);
    let mut atlas = 0usize;
    animator.update(FRAME, &mut atlas);
    assert_eq!(animator.target_state(), None);
    animator.update(FRAME, &mut atlas);
    assert_eq!(animator.target_state(), Some("Idle"));
    animator.update(FRAME / 2, &mut atlas);
    assert!(animator.in_state("Idle".to_string()));
    assert_eq!(animator.target_state(), None);
    assert_eq!(animator.frames_played(), 0);
    assert_eq!(animator.normalized_time(), 0);
    assert_eq!(animator.frame_timer().elapsed_nanos, 0);
    assert_eq!(animator.frame_timer().period_nanos, FRAME);
    assert_eq!((animator.first_index(), animator.last_index()), (8, 11));
    assert_eq!(atlas, 8);
    assert_eq!(animator.fps(), 8);
}

#[test]
fn switch_hands_back_exit_hook_then_enter_hook() {
    let mut animator = Animator::new();
    animator.add_state(AnimationState {
        on_enter: Some(10),
        on_exit: Some(11),
        ..state("Idle", 0, 3, true, vec![edge(vec![], "Attack")])
    });
    animator.add_state(AnimationState {
        on_enter: Some(20),
        on_exit: Some(21),
        ..state("Attack", 4, 7, false, vec![edge_after(vec![], "Idle", UNIT)])
    });
    animator.set_initial_state("Idle", 0, 3, 8);
    let mut atlas = 0usize;
    assert_eq!(animator.update(FRAME, &mut atlas), STAY);
    assert_eq!(
        animator.update(FRAME, &mut atlas),
        Update { switched: true, on_exit: Some(11), on_enter: Some(20) }
    );
    for _ in 0..4 {
        assert_eq!(animator.update(FRAME, &mut atlas), STAY);
    }
    assert_eq!(
        animator.update(FRAME, &mut atlas),
        Update { switched: true, on_exit: Some(21), on_enter: Some(10) }
    );
}

#[test]
fn switch_between_states_without_hooks_hands_back_none() {
    let mut animator = Animator::new();
    animator.add_state(state("Idle", 0, 3, true, vec![edge(vec![], "Walk")]));
    animator.add_state(state("Walk", 4, 9, true, vec![]));
    animator.set_initial_state("Idle", 0, 3, 8);
    let mut atlas = 0usize;
    animator.update(FRAME, &mut atlas);
    assert_eq!(
        animator.update(FRAME, &mut atlas),
        Update { switched: true, on_exit: None, on_enter: None }
    );
}

#[test]
fn switch_to_an_unknown_state_keeps_the_frame_range() {
    let mut animator = Animator::new();
    animator.add_state(AnimationState {
        on_exit: Some(7),
        ..state("Idle", 2, 5, true, vec![edge(vec![], "Nowhere")])
    });
    animator.set_initial_state("Idle", 2, 5, 8);
    let mut atlas = 4usize;
    animator.update(1, &mut atlas);
    assert_eq!(animator.target_state(), Some("Nowhere"));
    assert_eq!(
        animator.update(1, &mut atlas),
        Update { switched: true, on_exit: Some(7), on_enter: None }
    );
    assert!(animator.in_state("Nowhere".to_string()));
    assert_eq!((animator.first_index(), animator.last_index()), (2, 5));
    assert_eq!(atlas, 2);
    assert_eq!(animator.get_cur_audio(), None);
    for _ in 0..3 {
        assert_eq!(animator.update(FRAME, &mut atlas), STAY);
    }
    assert_eq!(atlas, 2);
}

#[test]
fn audio_cue_is_that_of_the_state_entered() {
    let mut animator = Animator::new();
    animator.add_state(state("Idle", 0, 3, true, vec![edge(vec![], "Attack")]));
    animator.add_state(AnimationState {
        audio_path: Some("audio/swing.ogg".to_string()),
        ..state("Attack", 4, 7, false, vec![])
    });
    animator.set_initial_state("Idle", 0, 3, 8);
    let mut atlas = 0usize;
    assert!(!animator.update(FRAME, &mut atlas).switched);
    assert_eq!(animator.get_cur_audio(), None);
    assert!(animator.update(FRAME, &mut atlas).switched);
    assert_eq!(animator.get_cur_audio(), Some("audio/swing.ogg".to_string()));
}
