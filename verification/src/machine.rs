//! The machine: pools of pose nodes, states and transitions, the parameter
//! store, the active-state and active-transition handles, the final-pose
//! buffer and a bounded queue of lifecycle events.
//!
//! One call to `evaluate_pose` performs a whole tick: every state's pose is
//! recomputed from its root; when no transition is active, the transition
//! pool is scanned in order and the first transition whose destination is
//! not the active state and whose rule parameter reads true is activated,
//! the destination becoming the active state at that instant; an active
//! transition blends the source and destination poses at its current blend
//! factor, then advances and, once done, resets and deactivates; otherwise
//! the active state's pose is the final pose. An empty machine degenerates
//! to the neutral pose. No step of the tick can fail.

use vstd::prelude::*;

use std::collections::VecDeque;

use crate::clip::ClipSource;
use crate::fixed::{sat64, scale_spec, FRAC_ONE, sat_sub};
use crate::node::PoseNode;
use crate::params::{spec_lookup, Parameter, ParameterContainer};
use crate::pool::{Handle, Pool, Slot};
use crate::pose::Pose;
use crate::state::{spec_root_chan, spec_root_len, State};
use crate::transition::{spec_reset, spec_updated, Transition};

verus! {

/// Most events the machine retains before silently dropping new ones.
pub const EVENT_LIMIT: usize = 2048;

/// A lifecycle event for collaborators to drain once per tick.
#[derive(Clone, Copy, PartialEq, Eq, Structural, Debug)]
pub enum Event {
    StateEnter(Handle),
    StateLeave(Handle),
    ActiveStateChanged(Handle),
}

/// An animation-blending state machine.
pub struct Machine {
    pub nodes: Pool<PoseNode>,
    pub states: Pool<State>,
    pub transitions: Pool<Transition>,
    pub final_pose: Pose,
    pub active_state: Handle,
    pub active_transition: Handle,
    pub parameters: ParameterContainer,
    pub events: VecDeque<Event>,
}

/// Channel `i` of the pose state slot `k` caches once the tick has
/// recomputed it from the state's root.
pub open spec fn spec_state_chan(m: Machine, clips: ClipSource, k: int, i: int) -> int
    recommends
        m.states.occupied(k),
{
    spec_root_chan(m.nodes, m.parameters, clips, m.states.payload_at(k).root, i)
}

/// Channel `i` of the recomputed pose of the state `h` refers to; zero when
/// `h` does not resolve.
pub open spec fn spec_state_chan_by_handle(m: Machine, clips: ClipSource, h: Handle, i: int) -> int {
    if m.states.valid(h) {
        spec_state_chan(m, clips, h.index as int, i)
    } else {
        0
    }
}

/// Stored channel count of the pose state slot `k` caches once the tick
/// has recomputed it from the state's root.
pub open spec fn spec_state_len(m: Machine, clips: ClipSource, k: int) -> int
    recommends
        m.states.occupied(k),
{
    spec_root_len(m.nodes, clips, m.states.payload_at(k).root)
}

/// Stored channel count of the recomputed pose of the state `h` refers
/// to; zero when `h` does not resolve.
pub open spec fn spec_state_len_by_handle(m: Machine, clips: ClipSource, h: Handle) -> int {
    if m.states.valid(h) {
        spec_state_len(m, clips, h.index as int)
    } else {
        0
    }
}

/// True when the rule parameter a transition is gated by currently reads
/// true: a missing name, or a name bound to a weight, gates nothing.
pub open spec fn spec_rule_active(t: Transition, params: ParameterContainer) -> bool {
    spec_lookup(params.entries@, t.rule@) == Some(Parameter::Rule(true))
}

/// True when the transition in slot `k` may activate: it exists, its
/// destination is not already the active state, and its rule reads true.
/// The recorded source is deliberately not compared against the active
/// state: rules gate transitions globally, not per current state.
pub open spec fn spec_qualifies(
    transitions: Pool<Transition>,
    params: ParameterContainer,
    active_state: Handle,
    k: int,
) -> bool {
    &&& transitions.occupied(k)
    &&& transitions.payload_at(k).dest != active_state
    &&& spec_rule_active(transitions.payload_at(k), params)
}

/// The first qualifying transition at slot `k` or later, scanning the pool
/// in slot order.
pub open spec fn spec_sel_from(
    transitions: Pool<Transition>,
    params: ParameterContainer,
    active_state: Handle,
    k: int,
) -> Option<int>
    decreases transitions.spec_len() - k,
{
    if k < 0 || k >= transitions.spec_len() {
        None
    } else if spec_qualifies(transitions, params, active_state, k) {
        Some(k)
    } else {
        spec_sel_from(transitions, params, active_state, k + 1)
    }
}

/// The slot of the transition the tick activates: the first qualifying
/// one, and only when no transition is already active.
pub open spec fn spec_selected(m: Machine) -> Option<int> {
    if m.active_transition.spec_is_none() {
        spec_sel_from(m.transitions, m.parameters, m.active_state, 0)
    } else {
        None
    }
}

/// The active transition once the tick has scanned for one.
pub open spec fn spec_active_transition_mid(m: Machine) -> Handle {
    match spec_selected(m) {
        Some(k) => Handle { index: k as u32, generation: m.transitions.gen_at(k) },
        None => m.active_transition,
    }
}

/// The active state once the tick has scanned for a transition: the
/// destination counts as active from the instant the transition starts.
pub open spec fn spec_active_state_mid(m: Machine) -> Handle {
    match spec_selected(m) {
        Some(k) => m.transitions.payload_at(k).dest,
        None => m.active_state,
    }
}

/// True when the tick blends: the active transition handle, after the
/// scan, refers to a live transition.
pub open spec fn spec_blend_taken(m: Machine) -> bool {
    &&& !spec_active_transition_mid(m).spec_is_none()
    &&& m.transitions.valid(spec_active_transition_mid(m))
}

/// The transition the tick blends by.
pub open spec fn spec_active_tr(m: Machine) -> Transition
    recommends
        spec_blend_taken(m),
{
    m.transitions.payload_at(spec_active_transition_mid(m).index as int)
}

/// The blending transition after the tick has advanced it by `dt`: reset
/// to a fresh idle instance when the advance completed it.
pub open spec fn spec_after_tick_tr(t: Transition, dt: u64) -> Transition {
    let advanced = spec_updated(t, dt);
    if advanced.elapsed_time == advanced.transition_time {
        spec_reset(advanced)
    } else {
        advanced
    }
}

/// The transition slots after the tick: only the blending transition
/// changes.
pub open spec fn spec_transitions_after(m: Machine, dt: u64) -> Seq<Slot<Transition>> {
    if spec_blend_taken(m) {
        m.transitions.slots@.update(
            spec_active_transition_mid(m).index as int,
            (Slot {
                generation: spec_active_transition_mid(m).generation,
                payload: Some(spec_after_tick_tr(spec_active_tr(m), dt)),
            }),
        )
    } else {
        m.transitions.slots@
    }
}

/// The active transition handle after the tick: cleared when the advance
/// completed the blending transition.
pub open spec fn spec_active_transition_after(m: Machine, dt: u64) -> Handle {
    if spec_blend_taken(m) && spec_updated(spec_active_tr(m), dt).elapsed_time == spec_active_tr(
        m,
    ).transition_time {
        Handle::spec_none()
    } else {
        spec_active_transition_mid(m)
    }
}

/// Channel `i` of the final pose of a tick: the source and destination
/// poses of the blending transition, weighted by one minus the blend
/// factor and the blend factor; or the active state's pose; or neutral.
/// States that do not resolve contribute the neutral pose.
pub open spec fn spec_tick_final_chan(m: Machine, clips: ClipSource, i: int) -> int {
    if spec_blend_taken(m) {
        let t = spec_active_tr(m);
        let f = t.blend_factor as int;
        sat64(
            sat64(0 + scale_spec(spec_state_chan_by_handle(m, clips, t.src, i), sat64(FRAC_ONE - f)))
                + scale_spec(spec_state_chan_by_handle(m, clips, t.dest, i), f),
        )
    } else {
        spec_state_chan_by_handle(m, clips, spec_active_state_mid(m), i)
    }
}

/// Stored channel count of the final pose of a tick: a blend holds the
/// longer of the source and destination poses, the active-state case is
/// an exact copy, and everything else is the empty neutral pose.
pub open spec fn spec_tick_final_len(m: Machine, clips: ClipSource) -> int {
    if spec_blend_taken(m) {
        let t = spec_active_tr(m);
        let src_len = spec_state_len_by_handle(m, clips, t.src);
        let dest_len = spec_state_len_by_handle(m, clips, t.dest);
        if src_len >= dest_len {
            src_len
        } else {
            dest_len
        }
    } else {
        spec_state_len_by_handle(m, clips, spec_active_state_mid(m))
    }
}

impl Machine {
    /// A machine with no nodes, states, transitions, parameters or events,
    /// no active state or transition, and the neutral final pose.
    pub fn new() -> (m: Machine)
        ensures
            m.nodes.slots@.len() == 0,
            m.states.slots@.len() == 0,
            m.transitions.slots@.len() == 0,
            m.final_pose.channels@.len() == 0,
            m.active_state == Handle::spec_none(),
            m.active_transition == Handle::spec_none(),
            m.parameters.entries@.len() == 0,
            m.events@.len() == 0,
    {
        Machine {
            nodes: Pool::new(),
            states: Pool::new(),
            transitions: Pool::new(),
            final_pose: Pose::neutral(),
            active_state: Handle::none(),
            active_transition: Handle::none(),
            parameters: ParameterContainer::new(),
            events: VecDeque::new(),
        }
    }

    /// Adds a pose node to the node pool and returns its handle.
    pub fn add_node(&mut self, node: PoseNode) -> (h: Handle)
        requires
            old(self).nodes.slots@.len() < u32::MAX as usize,
        ensures
            final(self).nodes.spec_resolve(h) == Some(node),
            match old(self).nodes.spec_first_free_from(0) {
                Some(k) => final(self).nodes.slots@ == old(self).nodes.slots@.update(
                    k,
                    (Slot {
                        generation: (old(self).nodes.gen_at(k) + 1) as u32,
                        payload: Some(node),
                    }),
                ),
                None => final(self).nodes.slots@ == old(self).nodes.slots@.push(
                    (Slot { generation: 1u32, payload: Some(node) }),
                ),
            },
            *final(self) == (Machine { nodes: final(self).nodes, ..*old(self) }),
    {
        self.nodes.spawn(node)
    }

    /// Declares (or redeclares) the parameter named `id`.
    pub fn add_parameter(&mut self, id: &str, parameter: Parameter)
        ensures
            forall|k: Seq<char>|
                #![auto]
                spec_lookup(final(self).parameters.entries@, k) == if k == id@ {
                    Some(parameter)
                } else {
                    spec_lookup(old(self).parameters.entries@, k)
                },
            *final(self) == (Machine { parameters: final(self).parameters, ..*old(self) }),
    {
        self.parameters.add(id, parameter);
    }

    /// Updates the parameter named `id` when it exists; a name that was
    /// never declared is a no-op and the store is left exactly as it was.
    pub fn set_parameter(&mut self, id: &str, parameter: Parameter)
        ensures
            match spec_lookup(old(self).parameters.entries@, id@) {
                Some(_) => forall|k: Seq<char>|
                    #![auto]
                    spec_lookup(final(self).parameters.entries@, k) == if k == id@ {
                        Some(parameter)
                    } else {
                        spec_lookup(old(self).parameters.entries@, k)
                    },
                None => final(self).parameters.entries@ == old(self).parameters.entries@,
            },
            *final(self) == (Machine { parameters: final(self).parameters, ..*old(self) }),
    {
        self.parameters.set(id, parameter);
    }

    /// Adds a state to the state pool and returns its handle.
    pub fn add_state(&mut self, state: State) -> (h: Handle)
        requires
            old(self).states.slots@.len() < u32::MAX as usize,
        ensures
            final(self).states.spec_resolve(h) == Some(state),
            match old(self).states.spec_first_free_from(0) {
                Some(k) => final(self).states.slots@ == old(self).states.slots@.update(
                    k,
                    (Slot {
                        generation: (old(self).states.gen_at(k) + 1) as u32,
                        payload: Some(state),
                    }),
                ),
                None => final(self).states.slots@ == old(self).states.slots@.push(
                    (Slot { generation: 1u32, payload: Some(state) }),
                ),
            },
            *final(self) == (Machine { states: final(self).states, ..*old(self) }),
    {
        self.states.spawn(state)
    }

    /// Adds a transition to the transition pool.
    pub fn add_transition(&mut self, transition: Transition)
        requires
            old(self).transitions.slots@.len() < u32::MAX as usize,
        ensures
            match old(self).transitions.spec_first_free_from(0) {
                Some(k) => final(self).transitions.slots@ == old(self).transitions.slots@.update(
                    k,
                    (Slot {
                        generation: (old(self).transitions.gen_at(k) + 1) as u32,
                        payload: Some(transition),
                    }),
                ),
                None => final(self).transitions.slots@ == old(self).transitions.slots@.push(
                    (Slot { generation: 1u32, payload: Some(transition) }),
                ),
            },
            *final(self) == (Machine { transitions: final(self).transitions, ..*old(self) }),
    {
        let _ = self.transitions.spawn(transition);
    }

    /// Borrows the state `state` refers to; a stale, null or out-of-range
    /// handle resolves to `None`.
    pub fn get_state(&self, state: Handle) -> (r: Option<&State>)
        ensures
            match r {
                Some(s) => self.states.spec_resolve(state) == Some(*s),
                None => self.states.spec_resolve(state) is None,
            },
    {
        self.states.try_borrow(state)
    }

    /// Enqueues a lifecycle event while fewer than `EVENT_LIMIT` are
    /// queued; beyond that the event is silently dropped.
    pub fn push_event(&mut self, event: Event)
        ensures
            final(self).events@ == if old(self).events@.len() < EVENT_LIMIT as int {
                old(self).events@.push(event)
            } else {
                old(self).events@
            },
            *final(self) == (Machine { events: final(self).events, ..*old(self) }),
    {
        if self.events.len() < EVENT_LIMIT {
            self.events.push_back(event);
        }
    }

    /// Dequeues the oldest lifecycle event, if any.
    pub fn pop_event(&mut self) -> (r: Option<Event>)
        ensures
            match r {
                Some(e) => old(self).events@.len() > 0 && e == old(self).events@[0]
                    && final(self).events@ == old(self).events@.subrange(
                    1,
                    old(self).events@.len() as int,
                ),
                None => old(self).events@.len() == 0 && final(self).events@ == old(self).events@,
            },
            *final(self) == (Machine { events: final(self).events, ..*old(self) }),
    {
        self.events.pop_front()
    }

    /// Recomputes every state's cached pose from its root: states are
    /// independent pure computations, recomputed active or not.
    #[verifier::loop_isolation(false)]
    fn update_state_poses(&mut self, clips: &ClipSource)
        ensures
            final(self).states.slots@.len() == old(self).states.slots@.len(),
            forall|k: int|
                0 <= k < old(self).states.slots@.len() ==> #[trigger] final(self).states.gen_at(k)
                    == old(self).states.gen_at(k) && final(self).states.occupied(k) == old(
                    self,
                ).states.occupied(k),
            forall|k: int|
                #![auto]
                old(self).states.occupied(k) ==> final(self).states.payload_at(k).name == old(
                    self,
                ).states.payload_at(k).name && final(self).states.payload_at(k).root == old(
                    self,
                ).states.payload_at(k).root,
            forall|k: int, i: int|
                #![auto]
                old(self).states.occupied(k) ==> final(self).states.payload_at(k).pose.spec_chan(i)
                    == spec_state_chan(*old(self), *clips, k, i),
            forall|k: int|
                #![auto]
                old(self).states.occupied(k) ==> final(self).states.payload_at(
                    k,
                ).pose.channels@.len() as int == spec_state_len(*old(self), *clips, k),
            *final(self) == (Machine { states: final(self).states, ..*old(self) }),
    {
        let n = self.states.slot_count();
        let mut k: usize = 0;
        while k < n
            invariant
                k <= n,
                n == self.states.slots@.len(),
                self.nodes == old(self).nodes,
                self.parameters == old(self).parameters,
                self.transitions == old(self).transitions,
                self.final_pose == old(self).final_pose,
                self.active_state == old(self).active_state,
                self.active_transition == old(self).active_transition,
                self.events == old(self).events,
                forall|k2: int|
                    0 <= k2 < n ==> ((#[trigger] self.states.slots@[k2]).generation == old(
                        self,
                    ).states.slots@[k2].generation && (self.states.slots@[k2].payload is Some) == (
                    old(self).states.slots@[k2].payload is Some)),
                forall|k2: int|
                    k <= k2 < n ==> #[trigger] self.states.slots@[k2] == old(self).states.slots@[k2],
                forall|k2: int|
                    0 <= k2 < k && old(self).states.slots@[k2].payload is Some ==> ((
                    #[trigger] self.states.slots@[k2]).payload->0.name == old(
                        self,
                    ).states.slots@[k2].payload->0.name && self.states.slots@[k2].payload->0.root
                        == old(self).states.slots@[k2].payload->0.root),
                forall|k2: int, i: int|
                    0 <= k2 < k && old(self).states.slots@[k2].payload is Some
                        ==> #[trigger] self.states.slots@[k2].payload->0.pose.spec_chan(i)
                        == spec_state_chan(*old(self), *clips, k2, i),
                forall|k2: int|
                    0 <= k2 < k && old(self).states.slots@[k2].payload is Some ==> (
                    #[trigger] self.states.slots@[k2]).payload->0.pose.channels@.len() as int
                        == spec_state_len(*old(self), *clips, k2),
            decreases n - k,
        {
            if self.states.has_at(k) {
                let entry = self.states.at_mut(k);
                entry.update(&self.nodes, &self.parameters, clips);
            }
            k += 1;
        }
    }

    /// Scans the transition pool in slot order, only when no transition is
    /// active, and activates the first transition whose destination is not
    /// the active state and whose rule parameter reads true. The
    /// destination becomes the active state the instant the transition
    /// starts.
    #[verifier::loop_isolation(false)]
    fn select_transition(&mut self)
        requires
            old(self).transitions.slots@.len() <= u32::MAX as usize,
        ensures
            final(self).active_transition == spec_active_transition_mid(*old(self)),
            final(self).active_state == spec_active_state_mid(*old(self)),
            *final(self) == (Machine {
                active_transition: final(self).active_transition,
                active_state: final(self).active_state,
                ..*old(self)
            }),
    {
        if self.active_transition.is_some() {
            return ;
        }
        let n = self.transitions.slot_count();
        let mut k: usize = 0;
        while k < n
            invariant
                k <= n,
                n == self.transitions.slots@.len(),
                *self == *old(self),
                spec_sel_from(self.transitions, self.parameters, self.active_state, 0)
                    == spec_sel_from(self.transitions, self.parameters, self.active_state, k as int),
                forall|k2: int|
                    0 <= k2 < k ==> !spec_qualifies(
                        self.transitions,
                        self.parameters,
                        self.active_state,
                        k2,
                    ),
            decreases n - k,
        {
            if self.transitions.has_at(k) {
                let qualifies = {
                    let t = self.transitions.at(k);
                    if t.dest == self.active_state {
                        false
                    } else {
                        match self.parameters.get(t.rule.as_str()) {
                            Some(p) => match p {
                                Parameter::Rule(active) => *active,
                                Parameter::Weight(_) => false,
                            },
                            None => false,
                        }
                    }
                };
                if qualifies {
                    proof {
                        assert(spec_qualifies(
                            self.transitions,
                            self.parameters,
                            self.active_state,
                            k as int,
                        ));
                        assert(spec_sel_from(
                            self.transitions,
                            self.parameters,
                            self.active_state,
                            k as int,
                        ) == Some(k as int));
                    }
                    let chosen = self.transitions.handle_at(k);
                    let dest = self.transitions.at(k).dest;
                    self.active_transition = chosen;
                    self.active_state = dest;
                    return ;
                }
            }
            proof {
                assert(spec_sel_from(self.transitions, self.parameters, self.active_state, k as int)
                    == spec_sel_from(
                    self.transitions,
                    self.parameters,
                    self.active_state,
                    k + 1,
                ));
            }
            k += 1;
        }
    }

    /// Performs one tick and returns a copy of the final pose.
    ///
    /// Every state's pose is recomputed from its root; when no transition
    /// is active, the first qualifying transition in pool order activates
    /// and its destination becomes the active state at once; an active
    /// transition blends the source pose at one minus its blend factor
    /// with the destination pose at its blend factor, then advances by
    /// `dt` and, once done, resets and deactivates; with no active
    /// transition the active state's pose is copied; an empty machine
    /// yields the neutral pose. Nothing here can fail: absent states or
    /// transitions contribute the neutral pose, and the event queue is
    /// not touched.
    pub fn evaluate_pose(&mut self, clips: &ClipSource, dt: u64) -> (out: Pose)
        requires
            old(self).transitions.slots@.len() <= u32::MAX as usize,
        ensures
            final(self).nodes == old(self).nodes,
            final(self).parameters == old(self).parameters,
            final(self).events == old(self).events,
            final(self).states.slots@.len() == old(self).states.slots@.len(),
            forall|k: int|
                0 <= k < old(self).states.slots@.len() ==> #[trigger] final(self).states.gen_at(k)
                    == old(self).states.gen_at(k) && final(self).states.occupied(k) == old(
                    self,
                ).states.occupied(k),
            forall|k: int|
                #![auto]
                old(self).states.occupied(k) ==> final(self).states.payload_at(k).name == old(
                    self,
                ).states.payload_at(k).name && final(self).states.payload_at(k).root == old(
                    self,
                ).states.payload_at(k).root,
            forall|k: int, i: int|
                #![auto]
                old(self).states.occupied(k) ==> final(self).states.payload_at(k).pose.spec_chan(i)
                    == spec_state_chan(*old(self), *clips, k, i),
            forall|k: int|
                #![auto]
                old(self).states.occupied(k) ==> final(self).states.payload_at(
                    k,
                ).pose.channels@.len() as int == spec_state_len(*old(self), *clips, k),
            final(self).active_state == spec_active_state_mid(*old(self)),
            final(self).active_transition == spec_active_transition_after(*old(self), dt),
            final(self).transitions.slots@ == spec_transitions_after(*old(self), dt),
            forall|i: int|
                #![auto]
                final(self).final_pose.spec_chan(i) == spec_tick_final_chan(*old(self), *clips, i),
            final(self).final_pose.channels@.len() as int == spec_tick_final_len(
                *old(self),
                *clips,
            ),
            out.channels@ == final(self).final_pose.channels@,
    {
        // Gather the current pose of every state.
        self.update_state_poses(clips);
        let ghost after_update: Machine = *self;

        self.final_pose.reset();

        // Find a transition to activate, when none is active.
        self.select_transition();

        let active = self.active_transition;
        let mut blended = false;
        let ghost mid: Machine = *self;
        if active.is_some() {
            let borrowed = match self.transitions.try_borrow(active) {
                Some(t) => Some((t.src, t.dest, t.blend_factor)),
                None => None,
            };
            match borrowed {
                Some((src, dest, factor)) => {
                    blended = true;
                    // Blend the source and destination state poses.
                    let inverse = sat_sub(FRAC_ONE, factor);
                    match self.states.try_borrow(src) {
                        Some(s) => self.final_pose.blend_with(&s.pose, inverse),
                        None => {
                            proof {
                                crate::fixed::lemma_scale_of_zero(inverse as int);
                            }
                        },
                    }
                    match self.states.try_borrow(dest) {
                        Some(s) => self.final_pose.blend_with(&s.pose, factor),
                        None => {
                            proof {
                                crate::fixed::lemma_scale_of_zero(factor as int);
                            }
                        },
                    }
                    proof {
                        let m0 = *old(self);
                        assert(active == spec_active_transition_mid(m0));
                        assert(spec_blend_taken(m0));
                        let t = spec_active_tr(m0);
                        assert(t.src == src && t.dest == dest && t.blend_factor == factor);
                        assert(mid.states == after_update.states);
                        let si = src.index as int;
                        if 0 <= si < m0.states.slots@.len() {
                            assert(after_update.states.gen_at(si) == m0.states.gen_at(si));
                            assert(after_update.states.occupied(si) == m0.states.occupied(si));
                        }
                        assert(m0.states.valid(src) == mid.states.valid(src));
                        let di = dest.index as int;
                        if 0 <= di < m0.states.slots@.len() {
                            assert(after_update.states.gen_at(di) == m0.states.gen_at(di));
                            assert(after_update.states.occupied(di) == m0.states.occupied(di));
                        }
                        assert(m0.states.valid(dest) == mid.states.valid(dest));
                        assert forall|i: int| #![auto]
                            self.final_pose.spec_chan(i) == spec_tick_final_chan(
                                m0,
                                *clips,
                                i,
                            ) by {
                            if m0.states.valid(src) {
                                assert(after_update.states.payload_at(
                                    src.index as int,
                                ).pose.spec_chan(i) == spec_state_chan(
                                    m0,
                                    *clips,
                                    src.index as int,
                                    i,
                                ));
                            }
                            if m0.states.valid(dest) {
                                assert(after_update.states.payload_at(
                                    dest.index as int,
                                ).pose.spec_chan(i) == spec_state_chan(
                                    m0,
                                    *clips,
                                    dest.index as int,
                                    i,
                                ));
                            }
                        }
                        if m0.states.valid(src) {
                            assert(after_update.states.payload_at(
                                src.index as int,
                            ).pose.channels@.len() as int == spec_state_len(
                                m0,
                                *clips,
                                src.index as int,
                            ));
                        }
                        if m0.states.valid(dest) {
                            assert(after_update.states.payload_at(
                                dest.index as int,
                            ).pose.channels@.len() as int == spec_state_len(
                                m0,
                                *clips,
                                dest.index as int,
                            ));
                        }
                        assert(self.final_pose.channels@.len() as int == spec_tick_final_len(
                            m0,
                            *clips,
                        ));
                    }

                    // Advance the crossfade; a finished transition resets
                    // and deactivates.
                    let idx = active.index as usize;
                    let done = {
                        let tr = self.transitions.at_mut(idx);
                        tr.update(dt);
                        let done = tr.is_done();
                        if done {
                            tr.reset();
                        }
                        done
                    };
                    if done {
                        self.active_transition = Handle::none();
                    }
                },
                None => {},
            }
        } else {
        }
        if !blended {
            if self.active_state.is_some() {
                match self.states.try_borrow(self.active_state) {
                    Some(s) => {
                        let copied = s.pose.duplicate();
                        self.final_pose = copied;
                    },
                    None => {},
                }
            }
            proof {
                let m0 = *old(self);
                let chosen = spec_active_state_mid(m0);
                assert(!spec_blend_taken(m0));
                assert(self.active_state == chosen);
                assert(mid.states == after_update.states);
                let ci = chosen.index as int;
                if 0 <= ci < m0.states.slots@.len() {
                    assert(after_update.states.gen_at(ci) == m0.states.gen_at(ci));
                    assert(after_update.states.occupied(ci) == m0.states.occupied(ci));
                }
                assert(m0.states.valid(chosen) == mid.states.valid(chosen));
                assert forall|i: int| #![auto]
                    self.final_pose.spec_chan(i) == spec_tick_final_chan(m0, *clips, i) by {
                    if m0.states.valid(chosen) {
                        assert(after_update.states.payload_at(chosen.index as int).pose.spec_chan(i)
                            == spec_state_chan(m0, *clips, chosen.index as int, i));
                    }
                }
                if m0.states.valid(chosen) {
                    assert(after_update.states.payload_at(chosen.index as int).pose.channels@.len()
                        as int == spec_state_len(m0, *clips, chosen.index as int));
                }
                assert(self.final_pose.channels@.len() as int == spec_tick_final_len(m0, *clips));
            }
        }
        proof {
            assert forall|k: int| 0 <= k < old(self).states.slots@.len() implies (
            #[trigger] self.states.gen_at(k) == old(self).states.gen_at(k) && self.states.occupied(
                k,
            ) == old(self).states.occupied(k)) by {
                assert(after_update.states.gen_at(k) == old(self).states.gen_at(k));
                assert(after_update.states.occupied(k) == old(self).states.occupied(k));
                assert(self.states == after_update.states);
            }
        }
        self.final_pose.duplicate()
    }
}

/// An empty builder, kept for the construction API's shape.
pub struct MachineBuilder {}

} // verus!
