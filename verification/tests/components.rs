use anim_machine::fixed::{sat_add, sat_sub, scale, FRAC_ONE};
use anim_machine::machine::Machine;
use anim_machine::params::{LoadError, Parameter, ParameterContainer};
use anim_machine::node::{PoseNode, PoseWeight};
use anim_machine::pool::{Handle, Pool};
use anim_machine::pose::Pose;
use anim_machine::transition::Transition;

#[test]
fn scale_truncates_toward_zero() {
    assert_eq!(scale(100, FRAC_ONE / 2), 50);
    assert_eq!(scale(101, FRAC_ONE / 2), 50);
    assert_eq!(scale(-101, FRAC_ONE / 2), -50);
    assert_eq!(scale(-3, FRAC_ONE), -3);
    assert_eq!(scale(7 * FRAC_ONE, 3 * FRAC_ONE), 21 * FRAC_ONE);
    assert_eq!(scale(5, 0), 0);
    assert_eq!(scale(0, -12345), 0);
}

#[test]
fn saturating_arithmetic_clamps_at_the_ends() {
    assert_eq!(sat_add(i64::MAX, 1), i64::MAX);
    assert_eq!(sat_add(i64::MIN, -1), i64::MIN);
    assert_eq!(sat_add(40, 2), 42);
    assert_eq!(sat_sub(i64::MIN, 1), i64::MIN);
    assert_eq!(sat_sub(FRAC_ONE, FRAC_ONE / 4), 3 * FRAC_ONE / 4);
    assert_eq!(scale(i64::MAX, i64::MAX), i64::MAX);
    assert_eq!(scale(i64::MAX, i64::MIN), i64::MIN);
}

#[test]
fn blending_a_pose_accumulates_weighted_channels() {
    let mut base = Pose::from_channels(vec![FRAC_ONE, 0]);
    let other = Pose::from_channels(vec![2 * FRAC_ONE, -4 * FRAC_ONE, 8 * FRAC_ONE]);
    base.blend_with(&other, FRAC_ONE / 2);
    assert_eq!(base.channel_count(), 3);
    assert_eq!(base.channel(0), 2 * FRAC_ONE);
    assert_eq!(base.channel(1), -2 * FRAC_ONE);
    assert_eq!(base.channel(2), 4 * FRAC_ONE);
    assert_eq!(base.channel(3), 0);
}

#[test]
fn parameter_store_add_overwrites_and_set_updates() {
    let mut params = ParameterContainer::new();
    params.add("speed", Parameter::Weight(FRAC_ONE));
    params.add("jump", Parameter::Rule(false));
    params.add("speed", Parameter::Weight(2 * FRAC_ONE));
    assert_eq!(params.len(), 2);
    assert_eq!(params.get("speed"), Some(&Parameter::Weight(2 * FRAC_ONE)));
    params.set("jump", Parameter::Rule(true));
    assert_eq!(params.get("jump"), Some(&Parameter::Rule(true)));
    assert_eq!(params.get("missing"), None);
}

#[test]
fn set_parameter_on_unknown_name_is_a_noop() {
    let mut machine = Machine::new();
    machine.add_parameter("declared", Parameter::Weight(7));
    let before = machine.parameters.entries.clone();
    machine.set_parameter("never_declared", Parameter::Rule(true));
    assert_eq!(machine.parameters.entries, before);
    assert_eq!(machine.parameters.get("never_declared"), None);
    machine.set_parameter("declared", Parameter::Weight(9));
    assert_eq!(machine.parameters.get("declared"), Some(&Parameter::Weight(9)));
}

#[test]
fn parameter_discriminants_round_trip() {
    assert_eq!(Parameter::from_id(0), Ok(Parameter::Weight(0)));
    assert_eq!(Parameter::from_id(1), Ok(Parameter::Rule(false)));
    assert_eq!(Parameter::from_id(2), Err(LoadError::UnknownParameterId(2)));
    assert_eq!(Parameter::Weight(55).id(), 0);
    assert_eq!(Parameter::Rule(true).id(), 1);
}

#[test]
fn pose_weight_discriminants_round_trip() {
    assert_eq!(PoseWeight::from_id(0), Ok(PoseWeight::Constant(0)));
    assert!(matches!(
        PoseWeight::from_id(1),
        Ok(PoseWeight::Parameter(s)) if s.is_empty()
    ));
    assert_eq!(PoseWeight::from_id(9), Err(LoadError::UnknownPoseWeightId(9)));
    assert_eq!(PoseWeight::Constant(1).id(), 0);
    assert_eq!(PoseWeight::Parameter(String::from("w")).id(), 1);
    // Loading what a value was saved under gives the value's own variant
    // back.
    let reloaded = PoseWeight::from_id(PoseWeight::Constant(7).id()).unwrap();
    assert!(matches!(reloaded, PoseWeight::Constant(_)));
    let reloaded = PoseWeight::from_id(PoseWeight::Parameter(String::from("w")).id()).unwrap();
    assert!(matches!(reloaded, PoseWeight::Parameter(_)));
}

#[test]
fn pose_node_discriminants_round_trip() {
    assert!(matches!(
        PoseNode::from_id(0),
        Ok(PoseNode::PlayAnimation(leaf)) if leaf.animation.is_none()
    ));
    assert!(matches!(
        PoseNode::from_id(1),
        Ok(PoseNode::BlendAnimations(b)) if b.pose_sources.is_empty()
    ));
    assert!(matches!(
        PoseNode::from_id(-1),
        Err(LoadError::UnknownPoseNodeId(-1))
    ));
}

#[test]
fn pool_handles_are_generation_checked() {
    let mut pool: Pool<u64> = Pool::new();
    let first = pool.spawn(10);
    let second = pool.spawn(20);
    assert_eq!(pool.try_borrow(first), Some(&10));
    assert_eq!(pool.try_borrow(second), Some(&20));
    assert_eq!(pool.free(first), Some(10));
    // The freed handle is stale now and resolves to nothing.
    assert_eq!(pool.try_borrow(first), None);
    // The slot is reused under a fresh generation; the stale handle
    // still resolves to nothing.
    let third = pool.spawn(30);
    assert_eq!(third.index, first.index);
    assert_ne!(third.generation, first.generation);
    assert_eq!(pool.try_borrow(first), None);
    assert_eq!(pool.try_borrow(third), Some(&30));
    assert_eq!(pool.try_borrow(Handle::none()), None);
    assert_eq!(
        pool.try_borrow(Handle { index: 999, generation: 1 }),
        None
    );
}

#[test]
fn transition_update_clamps_and_is_done_exactly_at_duration() {
    let duration = 3 * FRAC_ONE as u64;
    let mut t = Transition::new("walk->idle", Handle::none(), Handle::none(), duration, "R");
    assert_eq!(t.elapsed_time, 0);
    assert_eq!(t.blend_factor, 0);
    assert!(!t.is_done());
    let step = FRAC_ONE as u64;
    t.update(step);
    assert_eq!(t.elapsed_time, step);
    assert_eq!(t.blend_factor, FRAC_ONE / 3);
    t.update(step);
    t.update(step);
    assert!(t.is_done());
    assert_eq!(t.elapsed_time, duration);
    assert_eq!(t.blend_factor, FRAC_ONE);
    // Past the duration the clamp pins elapsed time and factor exactly.
    t.update(step * 100);
    assert_eq!(t.elapsed_time, duration);
    assert_eq!(t.blend_factor, FRAC_ONE);
    t.reset();
    assert_eq!(t.elapsed_time, 0);
    assert_eq!(t.blend_factor, 0);
    assert!(!t.is_done());
}

#[test]
fn zero_duration_transition_completes_immediately() {
    let mut t = Transition::new("snap", Handle::none(), Handle::none(), 0, "R");
    assert!(t.is_done());
    t.update(0);
    assert_eq!(t.elapsed_time, 0);
    assert_eq!(t.blend_factor, FRAC_ONE);
    assert!(t.is_done());
}
