//! States: named wrappers around one pose-graph root.
//!
//! A state caches the pose its root evaluates to. The machine recomputes
//! every state's pose once per tick, active or not, so that the instant a
//! state becomes the destination of a transition its pose is already
//! current — that is what makes crossfades possible without a one-tick lag.

use vstd::prelude::*;

use crate::clip::ClipSource;
use crate::node::{eval_node, spec_eval_chan, spec_eval_len, PoseNode};
use crate::params::ParameterContainer;
use crate::pool::{Handle, Pool};
use crate::pose::Pose;

verus! {

/// Fuel for evaluating one pose-graph root: one unit per pool slot covers
/// every path through an acyclic graph.
pub open spec fn spec_eval_fuel(nodes: Pool<PoseNode>) -> nat {
    nodes.slots@.len()
}

/// Channel `i` of the pose that root `h` evaluates to at full fuel.
pub open spec fn spec_root_chan(
    nodes: Pool<PoseNode>,
    params: ParameterContainer,
    clips: ClipSource,
    h: Handle,
    i: int,
) -> int {
    spec_eval_chan(nodes, params, clips, h, spec_eval_fuel(nodes), i)
}

/// Stored channel count of the pose that root `h` evaluates to at full
/// fuel.
pub open spec fn spec_root_len(nodes: Pool<PoseNode>, clips: ClipSource, h: Handle) -> int {
    spec_eval_len(nodes, clips, h, spec_eval_fuel(nodes))
}

/// A named state: one pose-graph root and its cached pose for the current
/// tick.
pub struct State {
    pub name: String,
    pub root: Handle,
    pub pose: Pose,
}

impl State {
    /// A state over the given root, with the neutral cached pose.
    pub fn new(name: &str, root: Handle) -> (s: State)
        ensures
            s.name@ == name@,
            s.root == root,
            s.pose.channels@.len() == 0,
    {
        State { name: name.to_owned(), root, pose: Pose::neutral() }
    }

    /// Borrows the pose cached by the last update.
    pub fn pose(&self) -> (r: &Pose)
        ensures
            *r == self.pose,
    {
        &self.pose
    }

    /// Recomputes the cached pose from this state's root.
    pub fn update(&mut self, nodes: &Pool<PoseNode>, params: &ParameterContainer, clips: &ClipSource)
        ensures
            final(self).name == old(self).name,
            final(self).root == old(self).root,
            forall|i: int|
                #![auto]
                final(self).pose.spec_chan(i) == spec_root_chan(
                    *nodes,
                    *params,
                    *clips,
                    old(self).root,
                    i,
                ),
            final(self).pose.channels@.len() as int == spec_root_len(
                *nodes,
                *clips,
                old(self).root,
            ),
    {
        self.pose.reset();
        let fuel = nodes.slot_count();
        let evaluated = eval_node(nodes, params, clips, self.root, fuel);
        self.pose = evaluated;
    }
}

} // verus!
