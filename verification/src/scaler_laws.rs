//! What holds of every run of the scaler.
//!
//! The properties are stated over the scaler's transition function and
//! proved for every state satisfying its invariant, so they hold of
//! every reachable state of the actor that drives the machine.

use vstd::prelude::*;

use crate::endpoint_watcher::EndpointCount;
use crate::scaler::{scaler_wf, spec_ready, spec_step, Mutation, Phase, ScalerMessage, ScalerStateView};

verus! {

/// Every step preserves the scaler's invariant.
pub proof fn lemma_step_preserves_wf(s: ScalerStateView, msg: ScalerMessage)
    requires
        scaler_wf(s),
    ensures
        scaler_wf(spec_step(s, msg).0),
{
}

/// No request is lost and their order is kept: the replies a step
/// completes, followed by the replies still pending, are exactly the
/// replies that were pending before, with an arriving request appended
/// at the back. Replies therefore complete in FIFO order, each exactly
/// once.
pub proof fn lemma_no_request_lost(s: ScalerStateView, msg: ScalerMessage)
    requires
        scaler_wf(s),
    ensures
        spec_step(s, msg).1.completes + spec_step(s, msg).0.pending =~= (match msg {
            ScalerMessage::EnsureUp(r) => s.pending.push(r),
            _ => s.pending,
        }),
{
}

/// As soon as the observer reports the workload serving (and, with
/// injection, the gateway no longer serving) during a scale-up, every
/// waiting reply completes, in order, and the scaler serves.
pub proof fn lemma_ready_count_drains(s: ScalerStateView, c: EndpointCount)
    requires
        scaler_wf(s),
        s.phase == Phase::ScalingUp,
        spec_ready(c, s.inject),
    ensures
        spec_step(s, ScalerMessage::CountChanged(c)).1.completes == s.pending,
        spec_step(s, ScalerMessage::CountChanged(c)).0.pending.len() == 0,
        spec_step(s, ScalerMessage::CountChanged(c)).0.phase == Phase::Serving,
{
}

/// The same drain happens when the scale-up mutation's completion
/// arrives after the observer already reported the workload serving:
/// no reply is left waiting for an event that will not come again.
pub proof fn lemma_ready_mutation_drains(s: ScalerStateView)
    requires
        scaler_wf(s),
        s.phase == Phase::ScalingUp,
        s.inflight == Some(Mutation::Up),
        spec_ready(s.count, s.inject),
    ensures
        spec_step(s, ScalerMessage::MutationSucceeded).1.completes == s.pending,
        spec_step(s, ScalerMessage::MutationSucceeded).0.pending.len() == 0,
        spec_step(s, ScalerMessage::MutationSucceeded).0.phase == Phase::Serving,
{
}

/// At most one scale mutation is ever in flight: a step asks for a
/// mutation only when none is in flight or when the one in flight has
/// just completed, and the mutation asked for becomes the one in
/// flight.
pub proof fn lemma_single_mutation_in_flight(s: ScalerStateView, msg: ScalerMessage)
    requires
        scaler_wf(s),
    ensures
        spec_step(s, msg).1.apply is Some ==> {
            &&& (s.inflight is None || msg == ScalerMessage::MutationSucceeded || msg
                == ScalerMessage::MutationFailed)
            &&& spec_step(s, msg).0.inflight == spec_step(s, msg).1.apply
        },
        spec_step(s, msg).1.apply is None ==> (spec_step(s, msg).0.inflight == s.inflight
            || spec_step(s, msg).0.inflight is None),
{
}

/// A reply completes only while the workload serves: whenever a step
/// completes replies, the count the scaler then holds reports the
/// workload serving and, with injection enabled, the gateway no longer
/// serving.
pub proof fn lemma_replies_complete_only_ready(s: ScalerStateView, msg: ScalerMessage)
    requires
        scaler_wf(s),
    ensures
        spec_step(s, msg).1.completes.len() > 0 ==> spec_ready(spec_step(s, msg).0.count, s.inject),
        spec_step(s, msg).1.completes.len() > 0 ==> spec_step(s, msg).0.phase == Phase::Serving,
{
}

/// Scale-down never fires while a request is unreplied: a step asks
/// for the scale-down mutation only with no reply pending before or
/// after, and never in the same step as a completion. (That the timer
/// has run its full interval since the last reply is the timer's own
/// contract: arming is requested anew at every completion, and an
/// arriving request cancels the timer.)
pub proof fn lemma_scale_down_only_quiescent(s: ScalerStateView, msg: ScalerMessage)
    requires
        scaler_wf(s),
    ensures
        spec_step(s, msg).1.apply == Some(Mutation::Down) ==> {
            &&& s.pending.len() == 0
            &&& spec_step(s, msg).0.pending.len() == 0
            &&& spec_step(s, msg).1.completes.len() == 0
        },
{
}

/// A count reporting the workload gone while the scaler serves does
/// not complete anything: the scaler returns to waiting, and a request
/// arriving then suspends rather than completing at once.
pub proof fn lemma_serving_drop_suspends(s: ScalerStateView, c: EndpointCount, r: u64)
    requires
        scaler_wf(s),
        s.phase == Phase::Serving,
        c.workload == 0,
    ensures
        spec_step(s, ScalerMessage::CountChanged(c)).0.phase == Phase::ScalingUp,
        spec_step(s, ScalerMessage::CountChanged(c)).1.completes.len() == 0,
        spec_step(spec_step(s, ScalerMessage::CountChanged(c)).0, ScalerMessage::EnsureUp(r))
            .1.completes.len() == 0,
        spec_step(spec_step(s, ScalerMessage::CountChanged(c)).0, ScalerMessage::EnsureUp(r))
            .0.pending =~= spec_step(s, ScalerMessage::CountChanged(c)).0.pending.push(r),
{
}

/// A request during scale-down cancels it: the step never asks for the
/// scale-down mutation and no scale-down is left pending. Where the
/// mutation was already in flight, the fresh scale-up is deferred to
/// the mutation's completion, which then asks for it.
pub proof fn lemma_ensure_up_cancels_scale_down(s: ScalerStateView, r: u64)
    requires
        scaler_wf(s),
        s.phase == Phase::ScalingDown,
    ensures
        spec_step(s, ScalerMessage::EnsureUp(r)).1.apply != Some(Mutation::Down),
        !spec_step(s, ScalerMessage::EnsureUp(r)).0.down_pending,
        s.inflight == Some(Mutation::Down) ==> {
            &&& spec_step(s, ScalerMessage::EnsureUp(r)).0.phase == Phase::ScalingUp
            &&& spec_step(s, ScalerMessage::EnsureUp(r)).1.apply is None
        },
{
}

/// The deferred scale-up of a cancelled scale-down is issued as soon
/// as the in-flight scale-down mutation completes, however it ends.
pub proof fn lemma_cancelled_scale_down_reapplies(s: ScalerStateView, ok: bool)
    requires
        scaler_wf(s),
        s.phase == Phase::ScalingUp,
        s.inflight == Some(Mutation::Down),
    ensures
        spec_step(
            s,
            if ok {
                ScalerMessage::MutationSucceeded
            } else {
                ScalerMessage::MutationFailed
            },
        ).1.apply == Some(Mutation::Up),
{
}

/// State round trip: one request against a workload at zero, followed
/// by silence, walks `Zero`, `ScalingUp`, `Serving`, `ScalingDown` and
/// back to `Zero`, with exactly two scale mutations: up first, then
/// down, and the one reply completed exactly once.
pub proof fn lemma_state_round_trip(s0: ScalerStateView, r: u64)
    requires
        scaler_wf(s0),
        s0.phase == Phase::Zero,
        s0.inflight is None,
        !s0.inject,
    ensures
        ({
            let (s1, o1) = spec_step(s0, ScalerMessage::EnsureUp(r));
            let (s2, o2) = spec_step(s1, ScalerMessage::MutationSucceeded);
            let (s3, o3) = spec_step(s2, ScalerMessage::CountChanged(
                EndpointCount { workload: 1, gateway: 0 },
            ));
            let (s4, o4) = spec_step(s3, ScalerMessage::IdleTimerFired);
            let (s5, o5) = spec_step(s4, ScalerMessage::MutationSucceeded);
            let (s6, o6) = spec_step(s5, ScalerMessage::CountChanged(
                EndpointCount { workload: 0, gateway: 0 },
            ));
            &&& s1.phase == Phase::ScalingUp && o1.apply == Some(Mutation::Up)
            &&& s2.phase == Phase::ScalingUp && o2.apply is None
            &&& s3.phase == Phase::Serving && o3.apply is None && o3.completes =~= seq![r]
            &&& s4.phase == Phase::ScalingDown && o4.apply == Some(Mutation::Down)
            &&& s5.phase == Phase::ScalingDown && o5.apply is None
            &&& s6.phase == Phase::Zero && o6.apply is None
            &&& o1.completes.len() == 0 && o2.completes.len() == 0 && o4.completes.len() == 0
                && o5.completes.len() == 0 && o6.completes.len() == 0
        }),
{
}

} // verus!
