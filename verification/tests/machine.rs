use anim_machine::clip::ClipSource;
use anim_machine::fixed::FRAC_ONE;
use anim_machine::machine::{Event, Machine, EVENT_LIMIT};
use anim_machine::node::{BlendAnimation, BlendPose, PlayAnimation, PoseNode, PoseWeight};
use anim_machine::params::Parameter;
use anim_machine::pool::Handle;
use anim_machine::pose::Pose;
use anim_machine::state::State;
use anim_machine::transition::Transition;

fn units(n: i64) -> i64 {
    n * FRAC_ONE
}

/// A machine over two constant clips, one leaf node and one state each.
fn two_state_machine(
    a: Vec<i64>,
    b: Vec<i64>,
) -> (Machine, ClipSource, Handle, Handle) {
    let mut clips = ClipSource::new();
    let clip_a = clips.add_clip(Pose::from_channels(a));
    let clip_b = clips.add_clip(Pose::from_channels(b));
    let mut machine = Machine::new();
    let leaf_a = machine.add_node(PoseNode::PlayAnimation(PlayAnimation::new(clip_a)));
    let leaf_b = machine.add_node(PoseNode::PlayAnimation(PlayAnimation::new(clip_b)));
    let s1 = machine.add_state(State::new("walk", leaf_a));
    let s2 = machine.add_state(State::new("idle", leaf_b));
    (machine, clips, s1, s2)
}

#[test]
fn empty_machine_ticks_neutral() {
    let mut machine = Machine::new();
    let clips = ClipSource::new();
    for _ in 0..3 {
        let pose = machine.evaluate_pose(&clips, units(1) as u64);
        assert_eq!(pose.channel_count(), 0);
        assert_eq!(pose.channel(0), 0);
        assert_eq!(pose.channel(17), 0);
    }
    assert!(machine.active_state.is_none());
    assert!(machine.active_transition.is_none());
}

#[test]
fn blend_weighted_sum_is_literal() {
    // Children weighted 0.75 and 0.25 over constant leaf poses A and B:
    // the state's pose is 0.75*A + 0.25*B channel-wise, unnormalized.
    let mut clips = ClipSource::new();
    let clip_a = clips.add_clip(Pose::from_channels(vec![units(8), -units(4)]));
    let clip_b = clips.add_clip(Pose::from_channels(vec![units(2), units(4)]));
    let mut machine = Machine::new();
    let leaf_a = machine.add_node(PoseNode::PlayAnimation(PlayAnimation::new(clip_a)));
    let leaf_b = machine.add_node(PoseNode::PlayAnimation(PlayAnimation::new(clip_b)));
    let blend = machine.add_node(PoseNode::BlendAnimations(BlendAnimation::new(vec![
        BlendPose::new(PoseWeight::Constant(49152), leaf_a),
        BlendPose::new(PoseWeight::Constant(16384), leaf_b),
    ])));
    let walk = machine.add_state(State::new("walk", blend));
    machine.evaluate_pose(&clips, 0);
    let state = machine.get_state(walk).unwrap();
    // 0.75*8 + 0.25*2 == 6.5; 0.75*(-4) + 0.25*4 == -2.
    assert_eq!(state.pose.channel(0), units(13) / 2);
    assert_eq!(state.pose.channel(1), -units(2));
}

#[test]
fn unnormalized_weights_are_not_rescaled() {
    // Weights 1.5 and 1.0 oversaturate on purpose: the sum is literal.
    let mut clips = ClipSource::new();
    let clip_a = clips.add_clip(Pose::from_channels(vec![units(2)]));
    let clip_b = clips.add_clip(Pose::from_channels(vec![units(3)]));
    let mut machine = Machine::new();
    let leaf_a = machine.add_node(PoseNode::PlayAnimation(PlayAnimation::new(clip_a)));
    let leaf_b = machine.add_node(PoseNode::PlayAnimation(PlayAnimation::new(clip_b)));
    let blend = machine.add_node(PoseNode::BlendAnimations(BlendAnimation::new(vec![
        BlendPose::new(PoseWeight::Constant(FRAC_ONE + FRAC_ONE / 2), leaf_a),
        BlendPose::new(PoseWeight::Constant(FRAC_ONE), leaf_b),
    ])));
    let walk = machine.add_state(State::new("walk", blend));
    machine.evaluate_pose(&clips, 0);
    let state = machine.get_state(walk).unwrap();
    // 1.5*2 + 1.0*3 == 6.
    assert_eq!(state.pose.channel(0), units(6));
}

#[test]
fn missing_weight_parameter_contributes_zero() {
    let mut clips = ClipSource::new();
    let clip_a = clips.add_clip(Pose::from_channels(vec![units(8)]));
    let mut machine = Machine::new();
    let leaf_a = machine.add_node(PoseNode::PlayAnimation(PlayAnimation::new(clip_a)));
    let blend = machine.add_node(PoseNode::BlendAnimations(BlendAnimation::new(vec![
        BlendPose::new(PoseWeight::Parameter(String::from("never_added")), leaf_a),
    ])));
    let walk = machine.add_state(State::new("walk", blend));
    machine.evaluate_pose(&clips, 0);
    let state = machine.get_state(walk).unwrap();
    assert_eq!(state.pose.channel(0), 0);
}

#[test]
fn rule_parameter_starts_crossfade_next_tick() {
    let a = vec![units(10), units(20)];
    let b = vec![units(30), -units(40)];
    let (mut machine, clips, s1, s2) = two_state_machine(a, b);
    machine.active_state = s1;
    machine.add_parameter("R", Parameter::Rule(false));
    machine.add_transition(Transition::new("walk->idle", s1, s2, units(1) as u64, "R"));

    // Rule still false: the active state's pose comes through unchanged.
    let pose = machine.evaluate_pose(&clips, 0);
    assert_eq!(pose.channel(0), units(10));
    assert_eq!(pose.channel(1), units(20));
    assert_eq!(machine.active_state, s1);
    assert!(machine.active_transition.is_none());

    // The very next tick after the rule turns true begins the crossfade,
    // and the destination is active from the instant it starts; at blend
    // factor zero the final pose is still exactly the source state's.
    machine.set_parameter("R", Parameter::Rule(true));
    let pose = machine.evaluate_pose(&clips, 0);
    assert_eq!(machine.active_state, s2);
    assert!(machine.active_transition.is_some());
    assert_eq!(pose.channel(0), units(10));
    assert_eq!(pose.channel(1), units(20));

    // Halfway through, the two poses mix evenly.
    let half = (units(1) / 2) as u64;
    machine.evaluate_pose(&clips, half);
    let pose = machine.evaluate_pose(&clips, half);
    assert_eq!(pose.channel(0), units(20));
    assert_eq!(pose.channel(1), -units(10));

    // The advance above consumed the whole duration, so that tick reset
    // the transition and cleared it; from now on the destination's pose
    // comes through exactly.
    assert!(machine.active_transition.is_none());
    let pose = machine.evaluate_pose(&clips, 0);
    assert_eq!(pose.channel(0), units(30));
    assert_eq!(pose.channel(1), -units(40));
    assert_eq!(machine.active_state, s2);
}

#[test]
fn transition_scan_takes_first_qualifying_in_pool_order() {
    let a = vec![units(1)];
    let b = vec![units(2)];
    let (mut machine, clips, s1, s2) = two_state_machine(a, b);
    machine.active_state = s1;
    machine.add_parameter("to_idle_slow", Parameter::Rule(true));
    machine.add_parameter("to_idle_fast", Parameter::Rule(true));
    // Both transitions qualify; the first added wins.
    machine.add_transition(Transition::new("slow", s1, s2, units(4) as u64, "to_idle_slow"));
    machine.add_transition(Transition::new("fast", s1, s2, units(1) as u64, "to_idle_fast"));
    machine.evaluate_pose(&clips, 0);
    assert!(machine.active_transition.is_some());
    assert_eq!(machine.active_transition.index, 0);
    assert_eq!(machine.transitions.at(0).name, "slow");
}

#[test]
fn transition_may_fire_from_any_state() {
    // The scan never compares the recorded source with the active state:
    // a transition "walk -> idle" fires while a third state is active, as
    // long as its destination is not active and its rule reads true.
    let a = vec![units(1)];
    let b = vec![units(2)];
    let (mut machine, clips, s1, s2) = two_state_machine(a, b);
    let leaf_extra = machine.add_node(PoseNode::PlayAnimation(PlayAnimation::new(Handle::none())));
    let s3 = machine.add_state(State::new("crouch", leaf_extra));
    machine.active_state = s3;
    machine.add_parameter("R", Parameter::Rule(true));
    machine.add_transition(Transition::new("walk->idle", s1, s2, units(1) as u64, "R"));
    machine.evaluate_pose(&clips, 0);
    assert_eq!(machine.active_state, s2);
    assert!(machine.active_transition.is_some());
}

#[test]
fn completed_transition_resets_and_clears() {
    let a = vec![units(1)];
    let b = vec![units(2)];
    let (mut machine, clips, s1, s2) = two_state_machine(a, b);
    machine.active_state = s1;
    machine.add_parameter("R", Parameter::Rule(true));
    let duration = units(2) as u64;
    machine.add_transition(Transition::new("walk->idle", s1, s2, duration, "R"));
    machine.evaluate_pose(&clips, units(1) as u64);
    {
        let tr = machine.transitions.at(0);
        assert_eq!(tr.elapsed_time, units(1) as u64);
        assert_eq!(tr.blend_factor, FRAC_ONE / 2);
    }
    // Accumulated time passes the duration: elapsed clamps to it, and the
    // tick that finds the crossfade done resets it and clears the active
    // transition.
    machine.evaluate_pose(&clips, units(5) as u64);
    {
        let tr = machine.transitions.at(0);
        assert_eq!(tr.elapsed_time, 0);
        assert_eq!(tr.blend_factor, 0);
    }
    assert!(machine.active_transition.is_none());
    assert_eq!(machine.active_state, s2);
}

#[test]
fn events_cap_in_fifo_order() {
    // 2050 pushes onto a fresh machine: exactly the oldest 2048 are
    // retrievable, in order; the newest two are dropped.
    let mut machine = Machine::new();
    for i in 0..2050u32 {
        machine.push_event(Event::StateEnter(Handle { index: i, generation: 1 }));
    }
    for i in 0..EVENT_LIMIT as u32 {
        let event = machine.pop_event().unwrap();
        assert_eq!(event, Event::StateEnter(Handle { index: i, generation: 1 }));
    }
    assert!(machine.pop_event().is_none());
}

#[test]
fn evaluate_pose_leaves_events_alone() {
    let mut machine = Machine::new();
    let clips = ClipSource::new();
    machine.push_event(Event::ActiveStateChanged(Handle::none()));
    machine.evaluate_pose(&clips, 1);
    assert_eq!(
        machine.pop_event().unwrap(),
        Event::ActiveStateChanged(Handle::none())
    );
    assert!(machine.pop_event().is_none());
}

#[test]
fn absent_clip_handle_evaluates_neutral() {
    let clips = ClipSource::new();
    let mut machine = Machine::new();
    let leaf = machine.add_node(PoseNode::PlayAnimation(PlayAnimation::new(Handle::none())));
    let s = machine.add_state(State::new("hollow", leaf));
    machine.active_state = s;
    let pose = machine.evaluate_pose(&clips, 0);
    assert_eq!(pose.channel_count(), 0);
    assert_eq!(pose.channel(0), 0);
}

#[test]
fn parameter_driven_weight_reads_the_store() {
    let mut clips = ClipSource::new();
    let clip_a = clips.add_clip(Pose::from_channels(vec![units(8)]));
    let mut machine = Machine::new();
    machine.add_parameter("aim", Parameter::Weight(FRAC_ONE / 4));
    let leaf_a = machine.add_node(PoseNode::PlayAnimation(PlayAnimation::new(clip_a)));
    let blend = machine.add_node(PoseNode::BlendAnimations(BlendAnimation::new(vec![
        BlendPose::new(PoseWeight::Parameter(String::from("aim")), leaf_a),
    ])));
    let walk = machine.add_state(State::new("walk", blend));
    machine.evaluate_pose(&clips, 0);
    assert_eq!(machine.get_state(walk).unwrap().pose.channel(0), units(2));

    // Updating the parameter reweights the next tick.
    machine.set_parameter("aim", Parameter::Weight(FRAC_ONE / 2));
    machine.evaluate_pose(&clips, 0);
    assert_eq!(machine.get_state(walk).unwrap().pose.channel(0), units(4));
}

#[test]
fn rule_parameter_used_as_weight_reads_zero() {
    let mut clips = ClipSource::new();
    let clip_a = clips.add_clip(Pose::from_channels(vec![units(8)]));
    let mut machine = Machine::new();
    machine.add_parameter("gate", Parameter::Rule(true));
    let leaf_a = machine.add_node(PoseNode::PlayAnimation(PlayAnimation::new(clip_a)));
    let blend = machine.add_node(PoseNode::BlendAnimations(BlendAnimation::new(vec![
        BlendPose::new(PoseWeight::Parameter(String::from("gate")), leaf_a),
    ])));
    let walk = machine.add_state(State::new("walk", blend));
    machine.evaluate_pose(&clips, 0);
    assert_eq!(machine.get_state(walk).unwrap().pose.channel(0), 0);
}

#[test]
fn nested_blends_compose() {
    // A blend of a leaf with another blend: ((4*0.5 + 8*0.25)*0.5) == 2.
    let mut clips = ClipSource::new();
    let clip_a = clips.add_clip(Pose::from_channels(vec![units(4)]));
    let clip_b = clips.add_clip(Pose::from_channels(vec![units(8)]));
    let mut machine = Machine::new();
    let leaf_a = machine.add_node(PoseNode::PlayAnimation(PlayAnimation::new(clip_a)));
    let leaf_b = machine.add_node(PoseNode::PlayAnimation(PlayAnimation::new(clip_b)));
    let inner = machine.add_node(PoseNode::BlendAnimations(BlendAnimation::new(vec![
        BlendPose::new(PoseWeight::Constant(FRAC_ONE / 2), leaf_a),
        BlendPose::new(PoseWeight::Constant(FRAC_ONE / 4), leaf_b),
    ])));
    let outer = machine.add_node(PoseNode::BlendAnimations(BlendAnimation::new(vec![
        BlendPose::new(PoseWeight::Constant(FRAC_ONE / 2), inner),
    ])));
    let s = machine.add_state(State::new("mixed", outer));
    machine.evaluate_pose(&clips, 0);
    assert_eq!(machine.get_state(s).unwrap().pose.channel(0), units(2));
}

#[test]
fn stale_state_handle_blends_as_neutral() {
    // A transition whose source state handle resolves to nothing blends
    // only the destination's contribution — the tick never fails.
    let b = vec![units(6)];
    let (mut machine, clips, _s1, s2) = two_state_machine(vec![units(2)], b);
    machine.add_parameter("R", Parameter::Rule(true));
    let ghost_state = Handle { index: 77, generation: 9 };
    machine.add_transition(Transition::new("x", ghost_state, s2, units(2) as u64, "R"));
    machine.evaluate_pose(&clips, units(1) as u64);
    // Blend factor is now one half: the absent source contributes zero.
    let pose = machine.evaluate_pose(&clips, 0);
    assert_eq!(pose.channel(0), units(3));
    assert_eq!(machine.active_state, s2);
}

#[test]
fn updated_clip_pose_flows_through_next_tick() {
    let mut clips = ClipSource::new();
    let clip = clips.add_clip(Pose::from_channels(vec![units(1)]));
    let mut machine = Machine::new();
    let leaf = machine.add_node(PoseNode::PlayAnimation(PlayAnimation::new(clip)));
    let s = machine.add_state(State::new("walk", leaf));
    machine.evaluate_pose(&clips, 0);
    assert_eq!(machine.get_state(s).unwrap().pose().channel(0), units(1));

    // The clip source resampled: the next tick picks the new pose up.
    assert!(clips.set_clip_pose(clip, Pose::from_channels(vec![units(9)])));
    machine.evaluate_pose(&clips, 0);
    assert_eq!(machine.get_state(s).unwrap().pose().channel(0), units(9));

    // A stale handle updates nothing.
    assert!(!clips.set_clip_pose(Handle { index: 5, generation: 3 }, Pose::neutral()));
}
