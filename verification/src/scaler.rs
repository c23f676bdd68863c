//! The scaler: a single-writer state machine that mediates concurrent
//! `EnsureUp` requests against the orchestrator's scale subresource.
//!
//! The machine owns all scale-up and scale-down intent. Connection
//! handlers, the observer's count publications, the idle timer and the
//! completions of orchestrator calls arrive as messages; each step
//! returns the new state together with the actions to perform: at most
//! one scale mutation, the replies to complete in FIFO order, an
//! injector instruction, and the arming or cancelling of the idle
//! timer. The surrounding actor performs the actions in that order and
//! feeds the outcome of each mutation back as a message.
//!
//! A scale-up mutation sets the replica target to one only where it
//! was zero; a scale-down sets it to zero. Failed scale-up mutations
//! are retried for as long as requests wait (the actor delays between
//! attempts); failed scale-down mutations are retried a bounded number
//! of times and then abandoned.

use vstd::prelude::*;

use crate::endpoint_watcher::EndpointCount;

verus! {

/// How often a scale-down mutation is attempted before it is
/// abandoned. Correctness does not require scale-down to succeed.
pub const MAX_DOWN_ATTEMPTS: u32 = 6;

/// The scaler's phase.
#[derive(Clone, Copy, Debug, PartialEq, Eq, Structural)]
pub enum Phase {
    /// The workload is at zero replicas and nothing is under way.
    Zero,
    /// A scale-up is under way; requests wait in `pending`.
    ScalingUp,
    /// The workload serves; the idle timer governs scale-down.
    Serving,
    /// A scale-down is under way.
    ScalingDown,
}

/// A scale mutation against the orchestrator.
#[derive(Clone, Copy, Debug, PartialEq, Eq, Structural)]
pub enum Mutation {
    /// Raise the replica target to one where it is zero.
    Up,
    /// Set the replica target to zero.
    Down,
}

/// An instruction to the injector.
#[derive(Clone, Copy, Debug, PartialEq, Eq, Structural)]
pub enum InjectorOp {
    /// Route the service to the gateway.
    Inject,
    /// Yield routing back to the workload.
    Eject,
}

/// One message to the scaler. Requests carry a reply handle, here an
/// identifier; the actor completes the reply when the identifier
/// appears in a step's completions.
#[derive(Clone, Copy, Debug, PartialEq, Eq, Structural)]
pub enum ScalerMessage {
    /// A connection handler asks for a serving workload.
    EnsureUp(u64),
    /// Fire-and-forget scale-up.
    ScaleUpNow,
    /// Fire-and-forget scale-down.
    ScaleDownNow,
    /// The observer published a new count.
    CountChanged(EndpointCount),
    /// The idle timer ran out.
    IdleTimerFired,
    /// The mutation last applied succeeded.
    MutationSucceeded,
    /// The mutation last applied failed.
    MutationFailed,
}

/// The scaler's state.
pub struct ScalerState {
    pub phase: Phase,
    /// Replies not yet completed, in arrival order.
    pub pending: Vec<u64>,
    /// The count last published by the observer.
    pub count: EndpointCount,
    /// Whether the idle timer is armed.
    pub idle_armed: bool,
    /// The scale mutation in flight, if any: never more than one.
    pub inflight: Option<Mutation>,
    /// A scale-down was decided but its mutation not yet applied.
    pub down_pending: bool,
    /// Failed attempts of the current scale-down.
    pub down_retries: u32,
    /// Whether injection is enabled.
    pub inject: bool,
}

/// The scaler's state as mathematics.
#[verifier::ext_equal]
pub struct ScalerStateView {
    pub phase: Phase,
    pub pending: Seq<u64>,
    pub count: EndpointCount,
    pub idle_armed: bool,
    pub inflight: Option<Mutation>,
    pub down_pending: bool,
    pub down_retries: u32,
    pub inject: bool,
}

impl View for ScalerState {
    type V = ScalerStateView;

    open spec fn view(&self) -> ScalerStateView {
        ScalerStateView {
            phase: self.phase,
            pending: self.pending@,
            count: self.count,
            idle_armed: self.idle_armed,
            inflight: self.inflight,
            down_pending: self.down_pending,
            down_retries: self.down_retries,
            inject: self.inject,
        }
    }
}

/// What one step asks the actor to do. The actor performs the
/// instruction to the injector first, then the mutation, then
/// completes the replies in order, then arms or cancels the timer.
pub struct StepOutput {
    /// At most one scale mutation.
    pub apply: Option<Mutation>,
    /// The replies to complete with success, in FIFO order.
    pub completes: Vec<u64>,
    pub injector_op: Option<InjectorOp>,
    /// (Re)arm the idle timer.
    pub arm_idle_timer: bool,
    /// Cancel the idle timer.
    pub cancel_idle_timer: bool,
}

/// A step's output as mathematics.
#[verifier::ext_equal]
pub struct StepOutputView {
    pub apply: Option<Mutation>,
    pub completes: Seq<u64>,
    pub injector_op: Option<InjectorOp>,
    pub arm_idle_timer: bool,
    pub cancel_idle_timer: bool,
}

impl View for StepOutput {
    type V = StepOutputView;

    open spec fn view(&self) -> StepOutputView {
        StepOutputView {
            apply: self.apply,
            completes: self.completes@,
            injector_op: self.injector_op,
            arm_idle_timer: self.arm_idle_timer,
            cancel_idle_timer: self.cancel_idle_timer,
        }
    }
}

/// No actions.
pub open spec fn quiet() -> StepOutputView {
    StepOutputView {
        apply: None,
        completes: Seq::<u64>::empty(),
        injector_op: None,
        arm_idle_timer: false,
        cancel_idle_timer: false,
    }
}

/// The condition under which an `EnsureUp` reply may complete: the
/// workload serves, and with injection enabled the gateway no longer
/// serves in its place.
pub open spec fn spec_ready(c: EndpointCount, inject: bool) -> bool {
    c.workload > 0 && (!inject || c.gateway == 0)
}

/// Whether the gateway must be ejected from routing: injection is
/// enabled, the workload serves, yet gateway endpoints still serve.
pub open spec fn spec_want_eject(c: EndpointCount, inject: bool) -> bool {
    inject && c.workload > 0 && c.gateway > 0
}

/// The scaler's invariant.
pub open spec fn scaler_wf(s: ScalerStateView) -> bool {
    &&& (s.phase != Phase::ScalingUp ==> s.pending.len() == 0)
    &&& (s.idle_armed ==> s.phase == Phase::Serving)
    &&& (s.down_pending ==> s.phase == Phase::ScalingDown)
    &&& (s.phase == Phase::Zero ==> s.count.workload == 0)
}

/// A request arrives: complete it at once where the workload already
/// serves, else enqueue it and make sure a scale-up is under way. A
/// request during scale-down cancels the scale-down: a mutation not
/// yet applied is dropped; one already in flight is followed, once it
/// completes, by a fresh scale-up mutation.
pub open spec fn spec_on_ensure_up(s: ScalerStateView, r: u64) -> (ScalerStateView, StepOutputView) {
    match s.phase {
        Phase::Serving => {
            if spec_ready(s.count, s.inject) {
                (
                    ScalerStateView { idle_armed: true, ..s },
                    StepOutputView { completes: seq![r], arm_idle_timer: true, ..quiet() },
                )
            } else {
                (
                    ScalerStateView {
                        phase: Phase::ScalingUp,
                        pending: s.pending.push(r),
                        idle_armed: false,
                        inflight: if s.inflight is None {
                            Some(Mutation::Up)
                        } else {
                            s.inflight
                        },
                        ..s
                    },
                    StepOutputView {
                        apply: if s.inflight is None {
                            Some(Mutation::Up)
                        } else {
                            None
                        },
                        cancel_idle_timer: true,
                        ..quiet()
                    },
                )
            }
        },
        Phase::Zero | Phase::ScalingUp => (
            ScalerStateView {
                phase: Phase::ScalingUp,
                pending: s.pending.push(r),
                inflight: if s.inflight is None {
                    Some(Mutation::Up)
                } else {
                    s.inflight
                },
                ..s
            },
            StepOutputView {
                apply: if s.inflight is None {
                    Some(Mutation::Up)
                } else {
                    None
                },
                ..quiet()
            },
        ),
        Phase::ScalingDown => {
            if s.inflight == Some(Mutation::Down) {
                (
                    ScalerStateView {
                        phase: Phase::ScalingUp,
                        pending: s.pending.push(r),
                        down_pending: false,
                        down_retries: 0,
                        ..s
                    },
                    StepOutputView {
                        injector_op: if s.inject {
                            Some(InjectorOp::Eject)
                        } else {
                            None
                        },
                        ..quiet()
                    },
                )
            } else if spec_ready(s.count, s.inject) {
                (
                    ScalerStateView {
                        phase: Phase::Serving,
                        idle_armed: true,
                        down_pending: false,
                        down_retries: 0,
                        ..s
                    },
                    StepOutputView { completes: seq![r], arm_idle_timer: true, ..quiet() },
                )
            } else {
                (
                    ScalerStateView {
                        phase: Phase::ScalingUp,
                        pending: s.pending.push(r),
                        down_pending: false,
                        down_retries: 0,
                        inflight: if s.inflight is None {
                            Some(Mutation::Up)
                        } else {
                            s.inflight
                        },
                        ..s
                    },
                    StepOutputView {
                        apply: if s.inflight is None {
                            Some(Mutation::Up)
                        } else {
                            None
                        },
                        injector_op: if s.inject {
                            Some(InjectorOp::Eject)
                        } else {
                            None
                        },
                        ..quiet()
                    },
                )
            }
        },
    }
}

/// Fire-and-forget scale-up: as a request, but with no reply to
/// enqueue or complete.
pub open spec fn spec_on_scale_up_now(s: ScalerStateView) -> (ScalerStateView, StepOutputView) {
    match s.phase {
        Phase::Serving => (s, quiet()),
        Phase::Zero | Phase::ScalingUp => (
            ScalerStateView {
                phase: Phase::ScalingUp,
                inflight: if s.inflight is None {
                    Some(Mutation::Up)
                } else {
                    s.inflight
                },
                ..s
            },
            StepOutputView {
                apply: if s.inflight is None {
                    Some(Mutation::Up)
                } else {
                    None
                },
                ..quiet()
            },
        ),
        Phase::ScalingDown => {
            if s.inflight == Some(Mutation::Down) {
                (
                    ScalerStateView {
                        phase: Phase::ScalingUp,
                        down_pending: false,
                        down_retries: 0,
                        ..s
                    },
                    StepOutputView {
                        injector_op: if s.inject {
                            Some(InjectorOp::Eject)
                        } else {
                            None
                        },
                        ..quiet()
                    },
                )
            } else if spec_ready(s.count, s.inject) {
                (
                    ScalerStateView {
                        phase: Phase::Serving,
                        idle_armed: true,
                        down_pending: false,
                        down_retries: 0,
                        ..s
                    },
                    StepOutputView { arm_idle_timer: true, ..quiet() },
                )
            } else {
                (
                    ScalerStateView {
                        phase: Phase::ScalingUp,
                        down_pending: false,
                        down_retries: 0,
                        inflight: if s.inflight is None {
                            Some(Mutation::Up)
                        } else {
                            s.inflight
                        },
                        ..s
                    },
                    StepOutputView {
                        apply: if s.inflight is None {
                            Some(Mutation::Up)
                        } else {
                            None
                        },
                        injector_op: if s.inject {
                            Some(InjectorOp::Eject)
                        } else {
                            None
                        },
                        ..quiet()
                    },
                )
            }
        },
    }
}

/// Begin a scale-down from `Serving`: with injection enabled, route to
/// the gateway first and apply the mutation only once gateway
/// endpoints serve; otherwise apply it at once, or hold it back while
/// another mutation is still in flight.
pub open spec fn spec_begin_scale_down(s: ScalerStateView, cancel: bool) -> (
    ScalerStateView,
    StepOutputView,
) {
    if s.inject {
        (
            ScalerStateView {
                phase: Phase::ScalingDown,
                idle_armed: false,
                down_pending: true,
                down_retries: 0,
                ..s
            },
            StepOutputView {
                injector_op: Some(InjectorOp::Inject),
                cancel_idle_timer: cancel,
                ..quiet()
            },
        )
    } else if s.inflight is None {
        (
            ScalerStateView {
                phase: Phase::ScalingDown,
                idle_armed: false,
                down_pending: false,
                down_retries: 0,
                inflight: Some(Mutation::Down),
                ..s
            },
            StepOutputView {
                apply: Some(Mutation::Down),
                cancel_idle_timer: cancel,
                ..quiet()
            },
        )
    } else {
        (
            ScalerStateView {
                phase: Phase::ScalingDown,
                idle_armed: false,
                down_pending: true,
                down_retries: 0,
                ..s
            },
            StepOutputView { cancel_idle_timer: cancel, ..quiet() },
        )
    }
}

/// Fire-and-forget scale-down: acts only from `Serving`.
pub open spec fn spec_on_scale_down_now(s: ScalerStateView) -> (ScalerStateView, StepOutputView) {
    if s.phase == Phase::Serving {
        spec_begin_scale_down(s, true)
    } else {
        (s, quiet())
    }
}

/// The idle timer ran out: begin a scale-down, unless the timer was
/// already cancelled or the phase moved on (a stale firing).
pub open spec fn spec_on_idle_timer(s: ScalerStateView) -> (ScalerStateView, StepOutputView) {
    if s.phase == Phase::Serving && s.idle_armed {
        spec_begin_scale_down(s, false)
    } else {
        (s, quiet())
    }
}

/// The observer published a new count.
pub open spec fn spec_on_count_changed(s: ScalerStateView, c: EndpointCount) -> (
    ScalerStateView,
    StepOutputView,
) {
    match s.phase {
        Phase::Zero => {
            if spec_ready(c, s.inject) {
                (
                    ScalerStateView { phase: Phase::Serving, idle_armed: true, count: c, ..s },
                    StepOutputView { arm_idle_timer: true, ..quiet() },
                )
            } else if spec_want_eject(c, s.inject) {
                (
                    ScalerStateView { phase: Phase::ScalingUp, count: c, ..s },
                    StepOutputView { injector_op: Some(InjectorOp::Eject), ..quiet() },
                )
            } else {
                (ScalerStateView { count: c, ..s }, quiet())
            }
        },
        Phase::ScalingUp => {
            if spec_ready(c, s.inject) {
                (
                    ScalerStateView {
                        phase: Phase::Serving,
                        pending: Seq::<u64>::empty(),
                        idle_armed: true,
                        count: c,
                        ..s
                    },
                    StepOutputView { completes: s.pending, arm_idle_timer: true, ..quiet() },
                )
            } else {
                (
                    ScalerStateView { count: c, ..s },
                    StepOutputView {
                        injector_op: if spec_want_eject(c, s.inject) {
                            Some(InjectorOp::Eject)
                        } else {
                            None
                        },
                        ..quiet()
                    },
                )
            }
        },
        Phase::Serving => {
            if spec_ready(c, s.inject) {
                (ScalerStateView { count: c, ..s }, quiet())
            } else {
                (
                    ScalerStateView {
                        phase: Phase::ScalingUp,
                        idle_armed: false,
                        count: c,
                        ..s
                    },
                    StepOutputView {
                        cancel_idle_timer: true,
                        injector_op: if spec_want_eject(c, s.inject) {
                            Some(InjectorOp::Eject)
                        } else {
                            None
                        },
                        ..quiet()
                    },
                )
            }
        },
        Phase::ScalingDown => {
            if c.workload == 0 {
                (
                    ScalerStateView {
                        phase: Phase::Zero,
                        count: c,
                        down_pending: false,
                        down_retries: 0,
                        ..s
                    },
                    quiet(),
                )
            } else if s.down_pending && s.inflight is None && (!s.inject || c.gateway > 0) {
                (
                    ScalerStateView {
                        count: c,
                        down_pending: false,
                        inflight: Some(Mutation::Down),
                        ..s
                    },
                    StepOutputView { apply: Some(Mutation::Down), ..quiet() },
                )
            } else {
                (ScalerStateView { count: c, ..s }, quiet())
            }
        },
    }
}

/// A mutation completed. A completed mutation during `ScalingUp` that
/// was a scale-down (cancelled by a request) is followed by the fresh
/// scale-up it deferred; a failed scale-up is retried; a failed
/// scale-down is retried up to `MAX_DOWN_ATTEMPTS` attempts and then
/// abandoned.
pub open spec fn spec_on_mutation_done(s: ScalerStateView, ok: bool) -> (
    ScalerStateView,
    StepOutputView,
) {
    match s.inflight {
        None => (s, quiet()),
        Some(m) => match s.phase {
            Phase::ScalingUp => {
                if m == Mutation::Down {
                    (
                        ScalerStateView { inflight: Some(Mutation::Up), ..s },
                        StepOutputView { apply: Some(Mutation::Up), ..quiet() },
                    )
                } else if !ok {
                    (
                        ScalerStateView { inflight: Some(Mutation::Up), ..s },
                        StepOutputView { apply: Some(Mutation::Up), ..quiet() },
                    )
                } else if spec_ready(s.count, s.inject) {
                    (
                        ScalerStateView {
                            phase: Phase::Serving,
                            pending: Seq::<u64>::empty(),
                            idle_armed: true,
                            inflight: None,
                            ..s
                        },
                        StepOutputView { completes: s.pending, arm_idle_timer: true, ..quiet() },
                    )
                } else {
                    (ScalerStateView { inflight: None, ..s }, quiet())
                }
            },
            Phase::ScalingDown => {
                if m == Mutation::Up {
                    if s.down_pending && (!s.inject || s.count.gateway > 0) {
                        (
                            ScalerStateView {
                                inflight: Some(Mutation::Down),
                                down_pending: false,
                                ..s
                            },
                            StepOutputView { apply: Some(Mutation::Down), ..quiet() },
                        )
                    } else {
                        (ScalerStateView { inflight: None, ..s }, quiet())
                    }
                } else if ok {
                    (ScalerStateView { inflight: None, ..s }, quiet())
                } else if s.down_retries + 1 < MAX_DOWN_ATTEMPTS {
                    (
                        ScalerStateView {
                            down_retries: (s.down_retries + 1) as u32,
                            inflight: Some(Mutation::Down),
                            ..s
                        },
                        StepOutputView { apply: Some(Mutation::Down), ..quiet() },
                    )
                } else if spec_ready(s.count, s.inject) {
                    (
                        ScalerStateView {
                            phase: Phase::Serving,
                            idle_armed: true,
                            inflight: None,
                            down_pending: false,
                            down_retries: 0,
                            ..s
                        },
                        StepOutputView { arm_idle_timer: true, ..quiet() },
                    )
                } else if s.count.workload > 0 {
                    (
                        ScalerStateView {
                            phase: Phase::ScalingUp,
                            inflight: None,
                            down_pending: false,
                            down_retries: 0,
                            ..s
                        },
                        StepOutputView {
                            injector_op: if s.inject {
                                Some(InjectorOp::Eject)
                            } else {
                                None
                            },
                            ..quiet()
                        },
                    )
                } else {
                    (
                        ScalerStateView {
                            phase: Phase::Zero,
                            inflight: None,
                            down_pending: false,
                            down_retries: 0,
                            ..s
                        },
                        quiet(),
                    )
                }
            },
            Phase::Serving | Phase::Zero => (ScalerStateView { inflight: None, ..s }, quiet()),
        },
    }
}

/// One step of the scaler: the state after the message and the actions
/// to perform.
pub open spec fn spec_step(s: ScalerStateView, msg: ScalerMessage) -> (
    ScalerStateView,
    StepOutputView,
) {
    match msg {
        ScalerMessage::EnsureUp(r) => spec_on_ensure_up(s, r),
        ScalerMessage::ScaleUpNow => spec_on_scale_up_now(s),
        ScalerMessage::ScaleDownNow => spec_on_scale_down_now(s),
        ScalerMessage::CountChanged(c) => spec_on_count_changed(s, c),
        ScalerMessage::IdleTimerFired => spec_on_idle_timer(s),
        ScalerMessage::MutationSucceeded => spec_on_mutation_done(s, true),
        ScalerMessage::MutationFailed => spec_on_mutation_done(s, false),
    }
}

/// The replica count the platform reports, a missing field standing
/// for zero.
pub fn replicas_or_zero(r: Option<i32>) -> (n: i32)
    ensures
        n == (match r {
            Some(v) => v,
            None => 0i32,
        }),
{
    match r {
        Some(v) => v,
        None => 0,
    }
}

/// The target of an idempotent scale-up: one, only where the current
/// target is below one.
pub fn scale_up_target(current: i32) -> (t: Option<i32>)
    ensures
        t == (if current < 1 {
            Some(1i32)
        } else {
            None::<i32>
        }),
{
    if current < 1 {
        Some(1)
    } else {
        None
    }
}

/// The target of a scale-down: zero, only where the current target is
/// not already zero.
pub fn scale_down_target(current: i32) -> (t: Option<i32>)
    ensures
        t == (if current != 0 {
            Some(0i32)
        } else {
            None::<i32>
        }),
{
    if current != 0 {
        Some(0)
    } else {
        None
    }
}

impl ScalerState {
    /// The scaler's state at boot, from the replica count read once:
    /// zero replicas start at `Zero`; otherwise the workload is taken
    /// as serving, with the idle timer armed.
    pub fn new(inject: bool, current_replicas: i32) -> (s: ScalerState)
        ensures
            s@ == (ScalerStateView {
                phase: if current_replicas <= 0 {
                    Phase::Zero
                } else {
                    Phase::Serving
                },
                pending: Seq::<u64>::empty(),
                count: EndpointCount { workload: 0, gateway: 0 },
                idle_armed: current_replicas > 0,
                inflight: None::<Mutation>,
                down_pending: false,
                down_retries: 0u32,
                inject: inject,
            }),
            scaler_wf(s@),
    {
        let s = ScalerState {
            phase: if current_replicas <= 0 {
                Phase::Zero
            } else {
                Phase::Serving
            },
            pending: Vec::new(),
            count: EndpointCount { workload: 0, gateway: 0 },
            idle_armed: current_replicas > 0,
            inflight: None,
            down_pending: false,
            down_retries: 0,
            inject,
        };
        proof {
            assert(s@ =~= (ScalerStateView {
                phase: if current_replicas <= 0 {
                    Phase::Zero
                } else {
                    Phase::Serving
                },
                pending: Seq::<u64>::empty(),
                count: EndpointCount { workload: 0, gateway: 0 },
                idle_armed: current_replicas > 0,
                inflight: None::<Mutation>,
                down_pending: false,
                down_retries: 0u32,
                inject: inject,
            }));
        }
        s
    }

    /// Feed one message to the scaler: the new state and the actions
    /// to perform, exactly as the transition function prescribes.
    pub fn step(self, msg: ScalerMessage) -> (r: (ScalerState, StepOutput))
        ensures
            r.0@ =~= spec_step(self@, msg).0,
            r.1@ =~= spec_step(self@, msg).1,
    {
        match msg {
            ScalerMessage::EnsureUp(reply) => self.on_ensure_up(reply),
            ScalerMessage::ScaleUpNow => self.on_scale_up_now(),
            ScalerMessage::ScaleDownNow => self.on_scale_down_now(),
            ScalerMessage::CountChanged(c) => self.on_count_changed(c),
            ScalerMessage::IdleTimerFired => self.on_idle_timer(),
            ScalerMessage::MutationSucceeded => self.on_mutation_done(true),
            ScalerMessage::MutationFailed => self.on_mutation_done(false),
        }
    }

    fn on_ensure_up(self, reply: u64) -> (r: (ScalerState, StepOutput))
        ensures
            r.0@ =~= spec_on_ensure_up(self@, reply).0,
            r.1@ =~= spec_on_ensure_up(self@, reply).1,
    {
        let ghost pre = self@;
        match self.phase {
            Phase::Serving => {
                if ready_now(self.count, self.inject) {
                    let next = ScalerState { idle_armed: true, ..self };
                    let mut completes: Vec<u64> = Vec::new();
                    completes.push(reply);
                    let out = StepOutput {
                        apply: None,
                        completes,
                        injector_op: None,
                        arm_idle_timer: true,
                        cancel_idle_timer: false,
                    };
                    proof {
                        assert(out@.completes =~= seq![reply]);
                    }
                    (next, out)
                } else {
                    let apply = if self.inflight.is_none() {
                        Some(Mutation::Up)
                    } else {
                        None
                    };
                    let inflight = if self.inflight.is_none() {
                        Some(Mutation::Up)
                    } else {
                        self.inflight
                    };
                    let mut pending = self.pending;
                    pending.push(reply);
                    let next = ScalerState {
                        phase: Phase::ScalingUp,
                        pending,
                        idle_armed: false,
                        inflight,
                        ..self
                    };
                    let out = StepOutput {
                        apply,
                        completes: Vec::new(),
                        injector_op: None,
                        arm_idle_timer: false,
                        cancel_idle_timer: true,
                    };
                    (next, out)
                }
            },
            Phase::Zero | Phase::ScalingUp => {
                let apply = if self.inflight.is_none() {
                    Some(Mutation::Up)
                } else {
                    None
                };
                let inflight = if self.inflight.is_none() {
                    Some(Mutation::Up)
                } else {
                    self.inflight
                };
                let mut pending = self.pending;
                pending.push(reply);
                let next = ScalerState { phase: Phase::ScalingUp, pending, inflight, ..self };
                let out = StepOutput {
                    apply,
                    completes: Vec::new(),
                    injector_op: None,
                    arm_idle_timer: false,
                    cancel_idle_timer: false,
                };
                (next, out)
            },
            Phase::ScalingDown => {
                if matches!(self.inflight, Some(Mutation::Down)) {
                    let eject = if self.inject {
                        Some(InjectorOp::Eject)
                    } else {
                        None
                    };
                    let mut pending = self.pending;
                    pending.push(reply);
                    let next = ScalerState {
                        phase: Phase::ScalingUp,
                        pending,
                        down_pending: false,
                        down_retries: 0,
                        ..self
                    };
                    let out = StepOutput {
                        apply: None,
                        completes: Vec::new(),
                        injector_op: eject,
                        arm_idle_timer: false,
                        cancel_idle_timer: false,
                    };
                    (next, out)
                } else if ready_now(self.count, self.inject) {
                    let next = ScalerState {
                        phase: Phase::Serving,
                        idle_armed: true,
                        down_pending: false,
                        down_retries: 0,
                        ..self
                    };
                    let mut completes: Vec<u64> = Vec::new();
                    completes.push(reply);
                    let out = StepOutput {
                        apply: None,
                        completes,
                        injector_op: None,
                        arm_idle_timer: true,
                        cancel_idle_timer: false,
                    };
                    proof {
                        assert(out@.completes =~= seq![reply]);
                    }
                    (next, out)
                } else {
                    let apply = if self.inflight.is_none() {
                        Some(Mutation::Up)
                    } else {
                        None
                    };
                    let inflight = if self.inflight.is_none() {
                        Some(Mutation::Up)
                    } else {
                        self.inflight
                    };
                    let eject = if self.inject {
                        Some(InjectorOp::Eject)
                    } else {
                        None
                    };
                    let mut pending = self.pending;
                    pending.push(reply);
                    let next = ScalerState {
                        phase: Phase::ScalingUp,
                        pending,
                        down_pending: false,
                        down_retries: 0,
                        inflight,
                        ..self
                    };
                    let out = StepOutput {
                        apply,
                        completes: Vec::new(),
                        injector_op: eject,
                        arm_idle_timer: false,
                        cancel_idle_timer: false,
                    };
                    (next, out)
                }
            },
        }
    }

    fn on_scale_up_now(self) -> (r: (ScalerState, StepOutput))
        ensures
            r.0@ =~= spec_on_scale_up_now(self@).0,
            r.1@ =~= spec_on_scale_up_now(self@).1,
    {
        match self.phase {
            Phase::Serving => (self, StepOutput::none()),
            Phase::Zero | Phase::ScalingUp => {
                let apply = if self.inflight.is_none() {
                    Some(Mutation::Up)
                } else {
                    None
                };
                let inflight = if self.inflight.is_none() {
                    Some(Mutation::Up)
                } else {
                    self.inflight
                };
                let next = ScalerState { phase: Phase::ScalingUp, inflight, ..self };
                let out = StepOutput {
                    apply,
                    completes: Vec::new(),
                    injector_op: None,
                    arm_idle_timer: false,
                    cancel_idle_timer: false,
                };
                (next, out)
            },
            Phase::ScalingDown => {
                if matches!(self.inflight, Some(Mutation::Down)) {
                    let eject = if self.inject {
                        Some(InjectorOp::Eject)
                    } else {
                        None
                    };
                    let next = ScalerState {
                        phase: Phase::ScalingUp,
                        down_pending: false,
                        down_retries: 0,
                        ..self
                    };
                    let out = StepOutput {
                        apply: None,
                        completes: Vec::new(),
                        injector_op: eject,
                        arm_idle_timer: false,
                        cancel_idle_timer: false,
                    };
                    (next, out)
                } else if ready_now(self.count, self.inject) {
                    let next = ScalerState {
                        phase: Phase::Serving,
                        idle_armed: true,
                        down_pending: false,
                        down_retries: 0,
                        ..self
                    };
                    let out = StepOutput {
                        apply: None,
                        completes: Vec::new(),
                        injector_op: None,
                        arm_idle_timer: true,
                        cancel_idle_timer: false,
                    };
                    (next, out)
                } else {
                    let apply = if self.inflight.is_none() {
                        Some(Mutation::Up)
                    } else {
                        None
                    };
                    let inflight = if self.inflight.is_none() {
                        Some(Mutation::Up)
                    } else {
                        self.inflight
                    };
                    let eject = if self.inject {
                        Some(InjectorOp::Eject)
                    } else {
                        None
                    };
                    let next = ScalerState {
                        phase: Phase::ScalingUp,
                        down_pending: false,
                        down_retries: 0,
                        inflight,
                        ..self
                    };
                    let out = StepOutput {
                        apply,
                        completes: Vec::new(),
                        injector_op: eject,
                        arm_idle_timer: false,
                        cancel_idle_timer: false,
                    };
                    (next, out)
                }
            },
        }
    }

    fn begin_scale_down(self, cancel: bool) -> (r: (ScalerState, StepOutput))
        ensures
            r.0@ =~= spec_begin_scale_down(self@, cancel).0,
            r.1@ =~= spec_begin_scale_down(self@, cancel).1,
    {
        if self.inject {
            let next = ScalerState {
                phase: Phase::ScalingDown,
                idle_armed: false,
                down_pending: true,
                down_retries: 0,
                ..self
            };
            let out = StepOutput {
                apply: None,
                completes: Vec::new(),
                injector_op: Some(InjectorOp::Inject),
                arm_idle_timer: false,
                cancel_idle_timer: cancel,
            };
            (next, out)
        } else if self.inflight.is_none() {
            let next = ScalerState {
                phase: Phase::ScalingDown,
                idle_armed: false,
                down_pending: false,
                down_retries: 0,
                inflight: Some(Mutation::Down),
                ..self
            };
            let out = StepOutput {
                apply: Some(Mutation::Down),
                completes: Vec::new(),
                injector_op: None,
                arm_idle_timer: false,
                cancel_idle_timer: cancel,
            };
            (next, out)
        } else {
            let next = ScalerState {
                phase: Phase::ScalingDown,
                idle_armed: false,
                down_pending: true,
                down_retries: 0,
                ..self
            };
            let out = StepOutput {
                apply: None,
                completes: Vec::new(),
                injector_op: None,
                arm_idle_timer: false,
                cancel_idle_timer: cancel,
            };
            (next, out)
        }
    }

    fn on_scale_down_now(self) -> (r: (ScalerState, StepOutput))
        ensures
            r.0@ =~= spec_on_scale_down_now(self@).0,
            r.1@ =~= spec_on_scale_down_now(self@).1,
    {
        if matches!(self.phase, Phase::Serving) {
            self.begin_scale_down(true)
        } else {
            (self, StepOutput::none())
        }
    }

    fn on_idle_timer(self) -> (r: (ScalerState, StepOutput))
        ensures
            r.0@ =~= spec_on_idle_timer(self@).0,
            r.1@ =~= spec_on_idle_timer(self@).1,
    {
        if matches!(self.phase, Phase::Serving) && self.idle_armed {
            self.begin_scale_down(false)
        } else {
            (self, StepOutput::none())
        }
    }

    fn on_count_changed(self, c: EndpointCount) -> (r: (ScalerState, StepOutput))
        ensures
            r.0@ =~= spec_on_count_changed(self@, c).0,
            r.1@ =~= spec_on_count_changed(self@, c).1,
    {
        match self.phase {
            Phase::Zero => {
                if ready_now(c, self.inject) {
                    let next = ScalerState {
                        phase: Phase::Serving,
                        idle_armed: true,
                        count: c,
                        ..self
                    };
                    let out = StepOutput {
                        apply: None,
                        completes: Vec::new(),
                        injector_op: None,
                        arm_idle_timer: true,
                        cancel_idle_timer: false,
                    };
                    (next, out)
                } else if want_eject_now(c, self.inject) {
                    let next = ScalerState { phase: Phase::ScalingUp, count: c, ..self };
                    let out = StepOutput {
                        apply: None,
                        completes: Vec::new(),
                        injector_op: Some(InjectorOp::Eject),
                        arm_idle_timer: false,
                        cancel_idle_timer: false,
                    };
                    (next, out)
                } else {
                    (ScalerState { count: c, ..self }, StepOutput::none())
                }
            },
            Phase::ScalingUp => {
                if ready_now(c, self.inject) {
                    let completes = self.pending;
                    let next = ScalerState {
                        phase: Phase::Serving,
                        pending: Vec::new(),
                        idle_armed: true,
                        count: c,
                        ..self
                    };
                    let out = StepOutput {
                        apply: None,
                        completes,
                        injector_op: None,
                        arm_idle_timer: true,
                        cancel_idle_timer: false,
                    };
                    (next, out)
                } else {
                    let eject = if want_eject_now(c, self.inject) {
                        Some(InjectorOp::Eject)
                    } else {
                        None
                    };
                    let next = ScalerState { count: c, ..self };
                    let out = StepOutput {
                        apply: None,
                        completes: Vec::new(),
                        injector_op: eject,
                        arm_idle_timer: false,
                        cancel_idle_timer: false,
                    };
                    (next, out)
                }
            },
            Phase::Serving => {
                if ready_now(c, self.inject) {
                    (ScalerState { count: c, ..self }, StepOutput::none())
                } else {
                    let eject = if want_eject_now(c, self.inject) {
                        Some(InjectorOp::Eject)
                    } else {
                        None
                    };
                    let next = ScalerState {
                        phase: Phase::ScalingUp,
                        idle_armed: false,
                        count: c,
                        ..self
                    };
                    let out = StepOutput {
                        apply: None,
                        completes: Vec::new(),
                        injector_op: eject,
                        arm_idle_timer: false,
                        cancel_idle_timer: true,
                    };
                    (next, out)
                }
            },
            Phase::ScalingDown => {
                if c.workload == 0 {
                    let next = ScalerState {
                        phase: Phase::Zero,
                        count: c,
                        down_pending: false,
                        down_retries: 0,
                        ..self
                    };
                    (next, StepOutput::none())
                } else if self.down_pending && self.inflight.is_none() && (!self.inject
                    || c.gateway > 0) {
                    let next = ScalerState {
                        count: c,
                        down_pending: false,
                        inflight: Some(Mutation::Down),
                        ..self
                    };
                    let out = StepOutput {
                        apply: Some(Mutation::Down),
                        completes: Vec::new(),
                        injector_op: None,
                        arm_idle_timer: false,
                        cancel_idle_timer: false,
                    };
                    (next, out)
                } else {
                    (ScalerState { count: c, ..self }, StepOutput::none())
                }
            },
        }
    }

    fn on_mutation_done(self, ok: bool) -> (r: (ScalerState, StepOutput))
        ensures
            r.0@ =~= spec_on_mutation_done(self@, ok).0,
            r.1@ =~= spec_on_mutation_done(self@, ok).1,
    {
        let m = match self.inflight {
            None => {
                return (self, StepOutput::none());
            },
            Some(m) => m,
        };
        match self.phase {
            Phase::ScalingUp => {
                if matches!(m, Mutation::Down) || !ok {
                    let next = ScalerState { inflight: Some(Mutation::Up), ..self };
                    let out = StepOutput {
                        apply: Some(Mutation::Up),
                        completes: Vec::new(),
                        injector_op: None,
                        arm_idle_timer: false,
                        cancel_idle_timer: false,
                    };
                    (next, out)
                } else if ready_now(self.count, self.inject) {
                    let completes = self.pending;
                    let next = ScalerState {
                        phase: Phase::Serving,
                        pending: Vec::new(),
                        idle_armed: true,
                        inflight: None,
                        ..self
                    };
                    let out = StepOutput {
                        apply: None,
                        completes,
                        injector_op: None,
                        arm_idle_timer: true,
                        cancel_idle_timer: false,
                    };
                    (next, out)
                } else {
                    (ScalerState { inflight: None, ..self }, StepOutput::none())
                }
            },
            Phase::ScalingDown => {
                if matches!(m, Mutation::Up) {
                    if self.down_pending && (!self.inject || self.count.gateway > 0) {
                        let next = ScalerState {
                            inflight: Some(Mutation::Down),
                            down_pending: false,
                            ..self
                        };
                        let out = StepOutput {
                            apply: Some(Mutation::Down),
                            completes: Vec::new(),
                            injector_op: None,
                            arm_idle_timer: false,
                            cancel_idle_timer: false,
                        };
                        (next, out)
                    } else {
                        (ScalerState { inflight: None, ..self }, StepOutput::none())
                    }
                } else if ok {
                    (ScalerState { inflight: None, ..self }, StepOutput::none())
                } else if self.down_retries < MAX_DOWN_ATTEMPTS - 1 {
                    let next = ScalerState {
                        down_retries: self.down_retries + 1,
                        inflight: Some(Mutation::Down),
                        ..self
                    };
                    let out = StepOutput {
                        apply: Some(Mutation::Down),
                        completes: Vec::new(),
                        injector_op: None,
                        arm_idle_timer: false,
                        cancel_idle_timer: false,
                    };
                    (next, out)
                } else if ready_now(self.count, self.inject) {
                    let next = ScalerState {
                        phase: Phase::Serving,
                        idle_armed: true,
                        inflight: None,
                        down_pending: false,
                        down_retries: 0,
                        ..self
                    };
                    let out = StepOutput {
                        apply: None,
                        completes: Vec::new(),
                        injector_op: None,
                        arm_idle_timer: true,
                        cancel_idle_timer: false,
                    };
                    (next, out)
                } else if self.count.workload > 0 {
                    let eject = if self.inject {
                        Some(InjectorOp::Eject)
                    } else {
                        None
                    };
                    let next = ScalerState {
                        phase: Phase::ScalingUp,
                        inflight: None,
                        down_pending: false,
                        down_retries: 0,
                        ..self
                    };
                    let out = StepOutput {
                        apply: None,
                        completes: Vec::new(),
                        injector_op: eject,
                        arm_idle_timer: false,
                        cancel_idle_timer: false,
                    };
                    (next, out)
                } else {
                    let next = ScalerState {
                        phase: Phase::Zero,
                        inflight: None,
                        down_pending: false,
                        down_retries: 0,
                        ..self
                    };
                    (next, StepOutput::none())
                }
            },
            Phase::Serving | Phase::Zero => (
                ScalerState { inflight: None, ..self },
                StepOutput::none(),
            ),
        }
    }
}

impl StepOutput {
    /// An output that asks for nothing.
    fn none() -> (out: StepOutput)
        ensures
            out@ =~= quiet(),
    {
        StepOutput {
            apply: None,
            completes: Vec::new(),
            injector_op: None,
            arm_idle_timer: false,
            cancel_idle_timer: false,
        }
    }
}

/// Whether replies may complete under the count `c`.
fn ready_now(c: EndpointCount, inject: bool) -> (b: bool)
    ensures
        b == spec_ready(c, inject),
{
    c.workload > 0 && (!inject || c.gateway == 0)
}

/// Whether the gateway must be ejected from routing under the count
/// `c`.
fn want_eject_now(c: EndpointCount, inject: bool) -> (b: bool)
    ensures
        b == spec_want_eject(c, inject),
{
    inject && c.workload > 0 && c.gateway > 0
}

} // verus!
