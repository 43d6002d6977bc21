//! Pose nodes: the building blocks of a pose graph.
//!
//! A `PlayAnimation` leaf exposes the current sampled pose of one clip; a
//! `BlendAnimations` node accumulates its children in list order, each at a
//! weight that is either a constant or the value of a named `Weight`
//! parameter. The blend is a literal weighted sum: weights need not sum to
//! one, and over- or under-saturation is the graph author's business.
//!
//! Evaluation is total. A handle that does not resolve contributes the
//! neutral pose, a missing or wrong-kind weight parameter reads as zero,
//! and recursion carries a fuel bound of one unit per pool slot — enough
//! for every path through an acyclic graph, which the caller must provide;
//! a cyclic graph degrades to neutral contributions where the fuel runs
//! out instead of recursing forever.

use vstd::prelude::*;

use crate::clip::ClipSource;
use crate::fixed::{sat64, scale_spec, scale};
use crate::params::{spec_lookup, LoadError, Parameter, ParameterContainer};
use crate::pool::{Handle, Pool};
use crate::pose::Pose;

verus! {

/// The weight of one blend child: a constant, or the value of a named
/// `Weight` parameter.
#[derive(PartialEq, Debug)]
pub enum PoseWeight {
    Constant(i64),
    Parameter(String),
}

/// The stable discriminant a weight source is persisted under.
pub open spec fn spec_weight_id(w: PoseWeight) -> int {
    match w {
        PoseWeight::Constant(_) => 0,
        PoseWeight::Parameter(_) => 1,
    }
}

impl PoseWeight {
    /// The blank value persisted under discriminant `id` — the inverse of
    /// `id()` at the variant level; an unknown discriminant is a load
    /// error.
    pub fn from_id(id: i32) -> (r: Result<PoseWeight, LoadError>)
        ensures
            id == 0 ==> r == Ok::<PoseWeight, LoadError>(PoseWeight::Constant(0i64)),
            id == 1 ==> (r matches Ok(w) && w matches PoseWeight::Parameter(s) && s@
                == Seq::<char>::empty()),
            id != 0 && id != 1 ==> r == Err::<PoseWeight, LoadError>(
                LoadError::UnknownPoseWeightId(id),
            ),
            r matches Ok(w) ==> spec_weight_id(w) == id,
            r is Ok <==> id == 0 || id == 1,
    {
        match id {
            0 => Ok(PoseWeight::Constant(0)),
            1 => Ok(PoseWeight::Parameter(String::new())),
            _ => Err(LoadError::UnknownPoseWeightId(id)),
        }
    }

    /// The stable discriminant this value is persisted under.
    pub fn id(&self) -> (r: i32)
        ensures
            r as int == spec_weight_id(*self),
    {
        match self {
            PoseWeight::Constant(_) => 0,
            PoseWeight::Parameter(_) => 1,
        }
    }
}

impl Default for PoseWeight {
    /// The neutral weight source: the constant zero.
    fn default() -> (r: PoseWeight)
        ensures
            r == PoseWeight::Constant(0i64),
    {
        PoseWeight::Constant(0)
    }
}

/// A leaf node: exposes the current sampled pose of one clip.
pub struct PlayAnimation {
    pub animation: Handle,
}

impl PlayAnimation {
    /// A leaf over the given clip handle.
    pub fn new(animation: Handle) -> (s: Self)
        ensures
            s.animation == animation,
    {
        Self { animation }
    }
}

/// One blend child: a weight source and the node it weights.
pub struct BlendPose {
    pub weight: PoseWeight,
    pub pose_source: Handle,
}

impl BlendPose {
    /// A blend child of the given weight source and node.
    pub fn new(weight: PoseWeight, pose_source: Handle) -> (s: Self)
        ensures
            s.weight == weight,
            s.pose_source == pose_source,
    {
        Self { weight, pose_source }
    }
}

/// A blend node: accumulates its children in list order, each at its
/// resolved weight.
pub struct BlendAnimation {
    pub pose_sources: Vec<BlendPose>,
}

impl BlendAnimation {
    /// A blend node over the given children.
    pub fn new(poses: Vec<BlendPose>) -> (s: Self)
        ensures
            s.pose_sources@ == poses@,
    {
        Self { pose_sources: poses }
    }
}

/// A node of the pose graph.
pub enum PoseNode {
    PlayAnimation(PlayAnimation),
    BlendAnimations(BlendAnimation),
}

/// The stable discriminant a pose node is persisted under.
pub open spec fn spec_node_id(n: PoseNode) -> int {
    match n {
        PoseNode::PlayAnimation(_) => 0,
        PoseNode::BlendAnimations(_) => 1,
    }
}

impl PoseNode {
    /// The blank value persisted under discriminant `id` — the inverse of
    /// `id()` at the variant level; an unknown discriminant is a load
    /// error.
    pub fn from_id(id: i32) -> (r: Result<PoseNode, LoadError>)
        ensures
            id == 0 ==> r == Ok::<PoseNode, LoadError>(
                PoseNode::PlayAnimation(PlayAnimation { animation: Handle::spec_none() }),
            ),
            id == 1 ==> (r matches Ok(n) && n matches PoseNode::BlendAnimations(b)
                && b.pose_sources@.len() == 0),
            id != 0 && id != 1 ==> r == Err::<PoseNode, LoadError>(LoadError::UnknownPoseNodeId(id)),
            r matches Ok(n) ==> spec_node_id(n) == id,
            r is Ok <==> id == 0 || id == 1,
    {
        match id {
            0 => Ok(PoseNode::PlayAnimation(PlayAnimation { animation: Handle::none() })),
            1 => Ok(PoseNode::BlendAnimations(BlendAnimation { pose_sources: Vec::new() })),
            _ => Err(LoadError::UnknownPoseNodeId(id)),
        }
    }

    /// The stable discriminant this value is persisted under.
    pub fn id(&self) -> (r: i32)
        ensures
            r as int == spec_node_id(*self),
    {
        match self {
            PoseNode::PlayAnimation(_) => 0,
            PoseNode::BlendAnimations(_) => 1,
        }
    }
}

impl Default for PoseNode {
    /// The blank node: a leaf over the null clip handle.
    fn default() -> (r: PoseNode)
        ensures
            r == PoseNode::PlayAnimation(PlayAnimation { animation: Handle::spec_none() }),
    {
        PoseNode::PlayAnimation(PlayAnimation { animation: Handle::none() })
    }
}

/// The raw weight a weight source resolves to: the constant itself, the
/// value of the named `Weight` parameter, or zero when the name misses or
/// names a parameter of the wrong kind.
pub open spec fn spec_weight_value(w: PoseWeight, params: ParameterContainer) -> int {
    match w {
        PoseWeight::Constant(c) => c as int,
        PoseWeight::Parameter(name) => match spec_lookup(params.entries@, name@) {
            Some(p) => match p {
                Parameter::Weight(v) => v as int,
                Parameter::Rule(_) => 0,
            },
            None => 0,
        },
    }
}

/// Channel `i` of the pose that node `h` evaluates to, with `fuel` bounding
/// the recursion depth. An absent node, or exhausted fuel, evaluates to the
/// neutral pose.
pub open spec fn spec_eval_chan(
    nodes: Pool<PoseNode>,
    params: ParameterContainer,
    clips: ClipSource,
    h: Handle,
    fuel: nat,
    i: int,
) -> int
    decreases fuel, 0int,
{
    if fuel == 0 {
        0
    } else {
        match nodes.spec_resolve(h) {
            None => 0,
            Some(node) => match node {
                PoseNode::PlayAnimation(leaf) => clips.spec_clip_chan(leaf.animation, i),
                PoseNode::BlendAnimations(blend) => spec_blend_chan(
                    nodes,
                    params,
                    clips,
                    blend.pose_sources@,
                    blend.pose_sources@.len() as int,
                    (fuel - 1) as nat,
                    i,
                ),
            },
        }
    }
}

/// Channel `i` of the first `upto` children of a blend node, accumulated
/// in list order starting from the neutral pose.
pub open spec fn spec_blend_chan(
    nodes: Pool<PoseNode>,
    params: ParameterContainer,
    clips: ClipSource,
    children: Seq<BlendPose>,
    upto: int,
    fuel: nat,
    i: int,
) -> int
    decreases fuel, upto,
{
    if upto <= 0 || upto > children.len() {
        0
    } else {
        let child = children[upto - 1];
        sat64(
            spec_blend_chan(nodes, params, clips, children, upto - 1, fuel, i) + scale_spec(
                spec_eval_chan(nodes, params, clips, child.pose_source, fuel, i),
                spec_weight_value(child.weight, params),
            ),
        )
    }
}

/// Stored channel count of the pose node `h` evaluates to, with `fuel`
/// bounding the recursion depth as in `spec_eval_chan`.
pub open spec fn spec_eval_len(nodes: Pool<PoseNode>, clips: ClipSource, h: Handle, fuel: nat) -> int
    decreases fuel, 0int,
{
    if fuel == 0 {
        0
    } else {
        match nodes.spec_resolve(h) {
            None => 0,
            Some(node) => match node {
                PoseNode::PlayAnimation(leaf) => clips.spec_clip_len(leaf.animation),
                PoseNode::BlendAnimations(blend) => spec_blend_len(
                    nodes,
                    clips,
                    blend.pose_sources@,
                    blend.pose_sources@.len() as int,
                    (fuel - 1) as nat,
                ),
            },
        }
    }
}

/// Stored channel count after accumulating the first `upto` children of a
/// blend node: the longest child so far, starting from the empty neutral
/// pose.
pub open spec fn spec_blend_len(
    nodes: Pool<PoseNode>,
    clips: ClipSource,
    children: Seq<BlendPose>,
    upto: int,
    fuel: nat,
) -> int
    decreases fuel, upto,
{
    if upto <= 0 || upto > children.len() {
        0
    } else {
        let sofar = spec_blend_len(nodes, clips, children, upto - 1, fuel);
        let child = spec_eval_len(nodes, clips, children[upto - 1].pose_source, fuel);
        if sofar >= child {
            sofar
        } else {
            child
        }
    }
}

/// Resolves a weight source against the parameter store.
pub fn resolve_weight(w: &PoseWeight, params: &ParameterContainer) -> (r: i64)
    ensures
        r as int == spec_weight_value(*w, *params),
{
    match w {
        PoseWeight::Constant(c) => *c,
        PoseWeight::Parameter(name) => match params.get(name.as_str()) {
            Some(p) => match p {
                Parameter::Weight(v) => *v,
                Parameter::Rule(_) => 0,
            },
            None => 0,
        },
    }
}

/// Evaluates node `h` of the graph to a fresh pose, reading blend weights
/// from `params` and leaf poses from `clips`. `fuel` bounds the recursion
/// depth; passing one unit per pool slot covers every path through an
/// acyclic graph.
#[verifier::loop_isolation(false)]
pub fn eval_node(
    nodes: &Pool<PoseNode>,
    params: &ParameterContainer,
    clips: &ClipSource,
    h: Handle,
    fuel: usize,
) -> (out: Pose)
    ensures
        forall|i: int|
            #![auto]
            out.spec_chan(i) == spec_eval_chan(*nodes, *params, *clips, h, fuel as nat, i),
        out.channels@.len() as int == spec_eval_len(*nodes, *clips, h, fuel as nat),
    decreases fuel,
{
    if fuel == 0 {
        return Pose::neutral();
    }
    match nodes.try_borrow(h) {
        None => Pose::neutral(),
        Some(node) => match node {
            PoseNode::PlayAnimation(leaf) => match clips.sample(leaf.animation) {
                Some(p) => p.duplicate(),
                None => Pose::neutral(),
            },
            PoseNode::BlendAnimations(blend) => {
                let mut out = Pose::neutral();
                let n = blend.pose_sources.len();
                let mut j: usize = 0;
                while j < n
                    invariant
                        j <= n,
                        forall|i: int|
                            #![auto]
                            out.spec_chan(i) == spec_blend_chan(
                                *nodes,
                                *params,
                                *clips,
                                blend.pose_sources@,
                                j as int,
                                (fuel - 1) as nat,
                                i,
                            ),
                        out.channels@.len() as int == spec_blend_len(
                            *nodes,
                            *clips,
                            blend.pose_sources@,
                            j as int,
                            (fuel - 1) as nat,
                        ),
                    decreases n - j,
                {
                    let w = resolve_weight(&blend.pose_sources[j].weight, params);
                    let child = eval_node(nodes, params, clips, blend.pose_sources[j].pose_source, fuel - 1);
                    out.blend_with(&child, w);
                    j += 1;
                }
                out
            },
        },
    }
}

} // verus!
