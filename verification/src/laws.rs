//! The engine's headline guarantees, stated and proved over the tick's
//! specification: degenerate machines are harmless, blending follows the
//! literal weighted-sum formula, crossfades clamp and complete exactly,
//! their endpoints reproduce the source and destination poses, and the
//! event queue keeps the oldest events.

use vstd::prelude::*;

use crate::clip::ClipSource;
use crate::fixed::{sat64, scale_spec, FRAC_ONE};
use crate::machine::{
    spec_active_state_mid, spec_active_transition_after, spec_active_transition_mid,
    spec_active_tr, spec_blend_taken, spec_selected, spec_state_chan_by_handle,
    spec_tick_final_chan, spec_tick_final_len, spec_transitions_after, Event, Machine,
    EVENT_LIMIT,
};
use crate::node::{
    spec_blend_chan, spec_eval_chan, BlendPose, PlayAnimation, PoseNode, PoseWeight,
};
use crate::params::ParameterContainer;
use crate::pool::{Handle, Pool};
use crate::state::{spec_eval_fuel, spec_root_chan};
use crate::transition::{spec_consistent, spec_factor, spec_reset, spec_updated, Transition};

verus! {

/// Whatever a node evaluates to, every channel of it fits in the raw
/// scalar range.
pub proof fn lemma_eval_chan_in_range(
    nodes: Pool<PoseNode>,
    params: ParameterContainer,
    clips: ClipSource,
    h: Handle,
    fuel: nat,
    i: int,
)
    ensures
        i64::MIN as int <= spec_eval_chan(nodes, params, clips, h, fuel, i) <= i64::MAX as int,
{
    if fuel != 0 {
        match nodes.spec_resolve(h) {
            Some(node) => match node {
                PoseNode::PlayAnimation(_) => {},
                PoseNode::BlendAnimations(blend) => {
                    let children = blend.pose_sources@;
                    let upto = children.len() as int;
                    assert(spec_eval_chan(nodes, params, clips, h, fuel, i) == spec_blend_chan(
                        nodes,
                        params,
                        clips,
                        children,
                        upto,
                        (fuel - 1) as nat,
                        i,
                    ));
                },
            },
            None => {},
        }
    }
}

/// A machine with no states and no transitions ticks to the neutral pose:
/// every channel of the final pose is zero, whatever the clip source, the
/// parameters, the stored handles and the time step.
pub proof fn lemma_empty_machine_neutral(m: Machine, clips: ClipSource, i: int)
    requires
        m.states.slots@.len() == 0,
        m.transitions.slots@.len() == 0,
    ensures
        spec_tick_final_chan(m, clips, i) == 0,
        spec_tick_final_len(m, clips) == 0,
        spec_selected(m) is None,
{
    lemma_empty_selection(m);
    assert(!spec_blend_taken(m));
    assert(!m.states.valid(spec_active_state_mid(m)));
}

/// With no transitions to scan, selection finds nothing.
proof fn lemma_empty_selection(m: Machine)
    requires
        m.transitions.slots@.len() == 0,
    ensures
        spec_selected(m) is None,
{
    assert(crate::machine::spec_sel_from(m.transitions, m.parameters, m.active_state, 0) is None);
}

/// A blend node over two leaves with constant weights evaluates, channel
/// by channel, to the literal weighted sum of the two clips' poses: the
/// first clip's channel at the first weight plus the second clip's channel
/// at the second weight, each truncated at the fixed-point scale, the sum
/// saturating only at the ends of the raw range. The weights are taken as
/// given — nothing renormalizes them.
pub proof fn lemma_blend_pair_weighted_sum(
    nodes: Pool<PoseNode>,
    params: ParameterContainer,
    clips: ClipSource,
    hb: Handle,
    h1: Handle,
    h2: Handle,
    w1: i64,
    w2: i64,
    c1: Handle,
    c2: Handle,
    i: int,
)
    requires
        nodes.valid(hb),
        nodes.payload_at(hb.index as int) matches PoseNode::BlendAnimations(b)
            && b.pose_sources@.len() == 2 && b.pose_sources@[0] == (BlendPose {
            weight: PoseWeight::Constant(w1),
            pose_source: h1,
        }) && b.pose_sources@[1] == (BlendPose {
            weight: PoseWeight::Constant(w2),
            pose_source: h2,
        }),
        nodes.valid(h1),
        nodes.payload_at(h1.index as int) == PoseNode::PlayAnimation(
            PlayAnimation { animation: c1 },
        ),
        nodes.valid(h2),
        nodes.payload_at(h2.index as int) == PoseNode::PlayAnimation(
            PlayAnimation { animation: c2 },
        ),
        hb.index != h1.index,
    ensures
        spec_root_chan(nodes, params, clips, hb, i) == sat64(
            scale_spec(clips.spec_clip_chan(c1, i), w1 as int) + scale_spec(
                clips.spec_clip_chan(c2, i),
                w2 as int,
            ),
        ),
{
    let fuel = spec_eval_fuel(nodes);
    assert(fuel >= 2);
    let children = nodes.payload_at(hb.index as int)->BlendAnimations_0.pose_sources@;
    let inner = (fuel - 1) as nat;
    assert(spec_eval_chan(nodes, params, clips, h1, inner, i) == clips.spec_clip_chan(c1, i));
    assert(spec_eval_chan(nodes, params, clips, h2, inner, i) == clips.spec_clip_chan(c2, i));
    assert(spec_blend_chan(nodes, params, clips, children, 0, inner, i) == 0);
    assert(spec_blend_chan(nodes, params, clips, children, 1, inner, i) == sat64(
        0 + scale_spec(clips.spec_clip_chan(c1, i), w1 as int),
    ));
    assert(spec_blend_chan(nodes, params, clips, children, 2, inner, i) == sat64(
        spec_blend_chan(nodes, params, clips, children, 1, inner, i) + scale_spec(
            clips.spec_clip_chan(c2, i),
            w2 as int,
        ),
    ));
    assert(spec_eval_chan(nodes, params, clips, hb, fuel, i) == spec_blend_chan(
        nodes,
        params,
        clips,
        children,
        2,
        inner,
        i,
    ));
}

/// When no transition is active and slot `k` holds the first transition
/// whose destination is not the active state and whose rule reads true,
/// the tick activates exactly that transition — pool order breaks ties —
/// and its destination becomes the active state at that same instant.
pub proof fn lemma_selection_activates_first(m: Machine, k: int)
    requires
        m.active_transition.spec_is_none(),
        0 <= k,
        crate::machine::spec_qualifies(m.transitions, m.parameters, m.active_state, k),
        forall|j: int|
            0 <= j < k ==> !crate::machine::spec_qualifies(
                m.transitions,
                m.parameters,
                m.active_state,
                j,
            ),
    ensures
        spec_selected(m) == Some(k),
        spec_active_state_mid(m) == m.transitions.payload_at(k).dest,
        spec_active_transition_mid(m) == (Handle {
            index: k as u32,
            generation: m.transitions.gen_at(k),
        }),
{
    lemma_scan_skips_unqualified(m, 0, k);
}

/// The tick after a rule turns true begins the crossfade: with no
/// transition active, the first transition in pool order whose destination
/// is not the active state and whose rule reads true is activated, its
/// destination is the active state from that same instant — not at
/// completion — and, the crossfade being fresh (blend factor zero), the
/// tick's final pose is still, channel for channel, exactly the source
/// state's freshly recomputed pose.
pub proof fn lemma_rule_begins_crossfade(m: Machine, clips: ClipSource, k: int, i: int)
    requires
        m.active_transition.spec_is_none(),
        m.transitions.slots@.len() <= u32::MAX as int,
        0 <= k,
        crate::machine::spec_qualifies(m.transitions, m.parameters, m.active_state, k),
        forall|j: int|
            0 <= j < k ==> !crate::machine::spec_qualifies(
                m.transitions,
                m.parameters,
                m.active_state,
                j,
            ),
        m.transitions.gen_at(k) != 0,
        m.transitions.payload_at(k).blend_factor == 0,
    ensures
        spec_active_transition_mid(m) == (Handle {
            index: k as u32,
            generation: m.transitions.gen_at(k),
        }),
        spec_active_state_mid(m) == m.transitions.payload_at(k).dest,
        spec_blend_taken(m),
        spec_tick_final_chan(m, clips, i) == spec_state_chan_by_handle(
            m,
            clips,
            m.transitions.payload_at(k).src,
            i,
        ),
{
    lemma_selection_activates_first(m, k);
    assert(m.transitions.valid(spec_active_transition_mid(m)));
    lemma_crossfade_endpoints(m, clips, i);
}

/// A scan that has found nothing up to `k` continues at `k`.
proof fn lemma_scan_skips_unqualified(m: Machine, j: int, k: int)
    requires
        0 <= j <= k,
        crate::machine::spec_qualifies(m.transitions, m.parameters, m.active_state, k),
        forall|j2: int|
            0 <= j2 < k ==> !crate::machine::spec_qualifies(
                m.transitions,
                m.parameters,
                m.active_state,
                j2,
            ),
    ensures
        crate::machine::spec_sel_from(m.transitions, m.parameters, m.active_state, j) == Some(k),
    decreases k - j,
{
    if j < k {
        lemma_scan_skips_unqualified(m, j + 1, k);
    }
}

/// The sum of a sequence of time steps.
pub open spec fn spec_sum(dts: Seq<u64>) -> int
    decreases dts.len(),
{
    if dts.len() == 0 {
        0
    } else {
        spec_sum(dts.drop_last()) + dts.last()
    }
}

/// A transition repeatedly advanced by a sequence of time steps.
pub open spec fn spec_updated_all(t: Transition, dts: Seq<u64>) -> Transition
    decreases dts.len(),
{
    if dts.len() == 0 {
        t
    } else {
        spec_updated(spec_updated_all(t, dts.drop_last()), dts.last())
    }
}

/// However a transition is advanced, its elapsed time accumulates the
/// time steps and is clamped to the duration — it never overshoots — and
/// its name, endpoints, rule and duration never change.
pub proof fn lemma_updates_clamp(t: Transition, dts: Seq<u64>)
    requires
        t.elapsed_time <= t.transition_time,
    ensures
        spec_updated_all(t, dts).transition_time == t.transition_time,
        spec_updated_all(t, dts).name == t.name,
        spec_updated_all(t, dts).src == t.src,
        spec_updated_all(t, dts).dest == t.dest,
        spec_updated_all(t, dts).rule == t.rule,
        spec_updated_all(t, dts).elapsed_time as int == if t.elapsed_time + spec_sum(dts)
            >= t.transition_time {
            t.transition_time as int
        } else {
            t.elapsed_time + spec_sum(dts)
        },
        dts.len() > 0 ==> spec_updated_all(t, dts).blend_factor as int == spec_factor(
            spec_updated_all(t, dts).elapsed_time,
            t.transition_time,
        ),
    decreases dts.len(),
{
    if dts.len() > 0 {
        lemma_updates_clamp(t, dts.drop_last());
        lemma_sum_nonnegative(dts.drop_last());
        let previous = spec_updated_all(t, dts.drop_last());
        lemma_factor_in_range(
            crate::transition::spec_elapsed_after(previous, dts.last()),
            t.transition_time,
        );
    } else {
    }
}

/// The blend factor of a clamped elapsed time never leaves the unit
/// range.
pub proof fn lemma_factor_in_range(elapsed: u64, total: u64)
    requires
        elapsed <= total,
    ensures
        0 <= spec_factor(elapsed, total) <= FRAC_ONE,
{
    if total != 0 {
        vstd::arithmetic::mul::lemma_mul_inequality(elapsed as int, total as int, FRAC_ONE as int);
        vstd::arithmetic::div_mod::lemma_div_is_ordered(
            0,
            (elapsed as int) * (FRAC_ONE as int),
            total as int,
        );
        vstd::arithmetic::div_mod::lemma_div_is_ordered(
            (elapsed as int) * (FRAC_ONE as int),
            (total as int) * (FRAC_ONE as int),
            total as int,
        );
        vstd::arithmetic::div_mod::lemma_div_multiples_vanish(FRAC_ONE as int, total as int);
        vstd::arithmetic::div_mod::lemma_div_multiples_vanish(0, total as int);
        assert((total as int) * (FRAC_ONE as int) == (FRAC_ONE as int) * (total as int));
        assert((total as int) * 0 == 0);
        assert((elapsed as int) * (FRAC_ONE as int) >= 0) by (nonlinear_arith)
            requires
                elapsed as int >= 0,
        ;
    }
}

/// A sum of time steps is never negative.
pub proof fn lemma_sum_nonnegative(dts: Seq<u64>)
    ensures
        spec_sum(dts) >= 0,
    decreases dts.len(),
{
    if dts.len() > 0 {
        lemma_sum_nonnegative(dts.drop_last());
    }
}

/// Once the accumulated time steps reach the duration, the elapsed time
/// is pinned at exactly the duration and the blend factor is exactly one:
/// the crossfade is done and never overshoots.
pub proof fn lemma_updates_complete(t: Transition, dts: Seq<u64>)
    requires
        t.elapsed_time <= t.transition_time,
        dts.len() > 0,
        t.elapsed_time + spec_sum(dts) >= t.transition_time,
    ensures
        spec_updated_all(t, dts).elapsed_time == t.transition_time,
        spec_updated_all(t, dts).blend_factor == FRAC_ONE,
        spec_updated_all(t, dts).spec_is_done(),
{
    lemma_updates_clamp(t, dts);
    lemma_factor_complete(t.transition_time);
}

/// While a crossfade runs, one advance never moves it backwards: elapsed
/// time and blend factor are non-decreasing under `update`.
pub proof fn lemma_update_monotone(t: Transition, dt: u64)
    requires
        t.elapsed_time <= t.transition_time,
        t.blend_factor as int == spec_factor(t.elapsed_time, t.transition_time),
    ensures
        spec_updated(t, dt).elapsed_time >= t.elapsed_time,
        spec_updated(t, dt).blend_factor >= t.blend_factor,
{
    let advanced = spec_updated(t, dt);
    lemma_factor_in_range(advanced.elapsed_time, t.transition_time);
    if t.transition_time != 0 {
        vstd::arithmetic::mul::lemma_mul_inequality(
            t.elapsed_time as int,
            advanced.elapsed_time as int,
            FRAC_ONE as int,
        );
        vstd::arithmetic::div_mod::lemma_div_is_ordered(
            (t.elapsed_time as int) * (FRAC_ONE as int),
            (advanced.elapsed_time as int) * (FRAC_ONE as int),
            t.transition_time as int,
        );
    }
}

/// The blend factor of a whole duration out of itself is exactly one.
pub proof fn lemma_factor_complete(total: u64)
    ensures
        spec_factor(total, total) == FRAC_ONE,
{
    if total != 0 {
        vstd::arithmetic::div_mod::lemma_div_multiples_vanish(FRAC_ONE as int, total as int);
        assert((total as int) * (FRAC_ONE as int) == (FRAC_ONE as int) * (total as int));
    }
}

/// The tick in which the active transition consumes the rest of its
/// duration resets it — elapsed time and blend factor return to zero —
/// and clears the machine's active transition.
pub proof fn lemma_completion_resets(m: Machine, dt: u64)
    requires
        spec_blend_taken(m),
        spec_updated(spec_active_tr(m), dt).elapsed_time == spec_active_tr(m).transition_time,
    ensures
        spec_active_transition_after(m, dt) == Handle::spec_none(),
        spec_transitions_after(m, dt)[spec_active_transition_mid(m).index as int].payload
            == Some(spec_reset(spec_updated(spec_active_tr(m), dt))),
        spec_reset(spec_updated(spec_active_tr(m), dt)).elapsed_time == 0,
        spec_reset(spec_updated(spec_active_tr(m), dt)).blend_factor == 0,
{
}

/// At blend factor zero the tick's final pose is the source state's
/// freshly recomputed pose, channel for channel; at blend factor one it is
/// the destination state's. In between, the two are mixed; and the
/// destination is already the active state while the crossfade runs.
pub proof fn lemma_crossfade_endpoints(m: Machine, clips: ClipSource, i: int)
    requires
        spec_blend_taken(m),
    ensures
        spec_active_tr(m).blend_factor == 0 ==> spec_tick_final_chan(m, clips, i)
            == spec_state_chan_by_handle(m, clips, spec_active_tr(m).src, i),
        spec_active_tr(m).blend_factor == FRAC_ONE ==> spec_tick_final_chan(m, clips, i)
            == spec_state_chan_by_handle(m, clips, spec_active_tr(m).dest, i),
{
    let t = spec_active_tr(m);
    let src_chan = spec_state_chan_by_handle(m, clips, t.src, i);
    let dest_chan = spec_state_chan_by_handle(m, clips, t.dest, i);
    lemma_state_chan_in_range(m, clips, t.src, i);
    lemma_state_chan_in_range(m, clips, t.dest, i);
    if t.blend_factor == 0 {
        crate::fixed::lemma_scale_one(src_chan);
        crate::fixed::lemma_scale_zero(dest_chan);
    }
    if t.blend_factor == FRAC_ONE {
        crate::fixed::lemma_scale_zero(src_chan);
        crate::fixed::lemma_scale_one(dest_chan);
    }
}

/// Whatever state a handle refers to, every channel of its recomputed
/// pose fits in the raw scalar range.
pub proof fn lemma_state_chan_in_range(m: Machine, clips: ClipSource, h: Handle, i: int)
    ensures
        i64::MIN as int <= spec_state_chan_by_handle(m, clips, h, i) <= i64::MAX as int,
{
    if m.states.valid(h) {
        lemma_eval_chan_in_range(
            m.nodes,
            m.parameters,
            clips,
            m.states.payload_at(h.index as int).root,
            spec_eval_fuel(m.nodes),
            i,
        );
    }
}

/// A tick rewrites at most the blending transition's slot, never a slot's
/// generation, and what it writes there is consistent again: advanced with
/// its factor rederived, or fully reset.
pub proof fn lemma_tick_keeps_transitions_consistent(m: Machine, dt: u64, k: int)
    requires
        0 <= k < m.transitions.slots@.len(),
        m.transitions.slots@[k].payload matches Some(t) && spec_consistent(t),
    ensures
        spec_transitions_after(m, dt).len() == m.transitions.slots@.len(),
        spec_transitions_after(m, dt)[k].generation == m.transitions.slots@[k].generation,
        spec_transitions_after(m, dt)[k].payload matches Some(t2) && spec_consistent(t2),
{
    if spec_blend_taken(m) {
        let chosen = spec_active_transition_mid(m);
        if k == chosen.index as int {
            let t = spec_active_tr(m);
            lemma_factor_in_range(spec_updated(t, dt).elapsed_time, t.transition_time);
        }
    }
}

/// A queue after a sequence of pushes, each retained only while the queue
/// is under its bound.
pub open spec fn spec_queue_after(q: Seq<Event>, pushed: Seq<Event>) -> Seq<Event>
    decreases pushed.len(),
{
    if pushed.len() == 0 {
        q
    } else {
        let grown = spec_queue_after(q, pushed.drop_last());
        if grown.len() < EVENT_LIMIT as int {
            grown.push(pushed.last())
        } else {
            grown
        }
    }
}

/// Pushing any sequence of events onto a queue within its bound keeps
/// exactly the oldest events, in arrival order, up to the bound: the
/// queue ends as the longest prefix of the old queue followed by the
/// pushed events that fits, and everything newer is dropped.
pub proof fn lemma_event_backlog(q: Seq<Event>, pushed: Seq<Event>)
    requires
        q.len() <= EVENT_LIMIT as int,
    ensures
        spec_queue_after(q, pushed) == (q + pushed).take(
            if q.len() + pushed.len() <= EVENT_LIMIT as int {
                (q.len() + pushed.len()) as int
            } else {
                EVENT_LIMIT as int
            },
        ),
        spec_queue_after(q, pushed).len() <= EVENT_LIMIT as int,
    decreases pushed.len(),
{
    if pushed.len() == 0 {
        assert(spec_queue_after(q, pushed) =~= (q + pushed).take(q.len() as int));
    } else {
        lemma_event_backlog(q, pushed.drop_last());
        let grown = spec_queue_after(q, pushed.drop_last());
        if grown.len() < EVENT_LIMIT as int {
            assert(grown.push(pushed.last()) =~= (q + pushed).take(
                if q.len() + pushed.len() <= EVENT_LIMIT as int {
                    (q.len() + pushed.len()) as int
                } else {
                    EVENT_LIMIT as int
                },
            ));
        } else {
            assert(grown =~= (q + pushed).take(EVENT_LIMIT as int));
        }
    }
}

} // verus!
