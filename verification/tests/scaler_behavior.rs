use sero::endpoint_watcher::EndpointCount;
use sero::scaler::{
    replicas_or_zero, scale_down_target, scale_up_target, InjectorOp, Mutation, Phase,
    ScalerMessage, ScalerState, StepOutput, MAX_DOWN_ATTEMPTS,
};

fn count(workload: usize, gateway: usize) -> EndpointCount {
    EndpointCount { workload, gateway }
}

fn no_actions(out: &StepOutput) -> bool {
    out.apply.is_none() && out.completes.is_empty() && out.injector_op.is_none()
        && !out.arm_idle_timer && !out.cancel_idle_timer
}

#[test]
fn boot_at_zero_replicas_starts_in_zero() {
    let s = ScalerState::new(false, 0);
    assert_eq!(s.phase, Phase::Zero);
    assert!(s.pending.is_empty());
    assert!(!s.idle_armed);
    assert!(s.inflight.is_none());
}

#[test]
fn boot_at_one_replica_starts_serving_with_timer() {
    let s = ScalerState::new(false, 1);
    assert_eq!(s.phase, Phase::Serving);
    assert!(s.idle_armed);
}

#[test]
fn replicas_field_missing_means_zero() {
    assert_eq!(replicas_or_zero(None), 0);
    assert_eq!(replicas_or_zero(Some(3)), 3);
}

#[test]
fn scale_up_patches_only_from_below_one() {
    assert_eq!(scale_up_target(0), Some(1));
    assert_eq!(scale_up_target(-1), Some(1));
    assert_eq!(scale_up_target(1), None);
    assert_eq!(scale_up_target(5), None);
}

#[test]
fn scale_down_patches_only_when_not_zero() {
    assert_eq!(scale_down_target(2), Some(0));
    assert_eq!(scale_down_target(1), Some(0));
    assert_eq!(scale_down_target(0), None);
}

#[test]
fn first_request_applies_one_scale_up() {
    let s = ScalerState::new(false, 0);
    let (s, out) = s.step(ScalerMessage::EnsureUp(1));
    assert_eq!(s.phase, Phase::ScalingUp);
    assert_eq!(out.apply, Some(Mutation::Up));
    assert_eq!(s.pending, vec![1]);
    assert!(out.completes.is_empty());
}

#[test]
fn concurrent_requests_share_one_mutation() {
    let s = ScalerState::new(false, 0);
    let (s, out1) = s.step(ScalerMessage::EnsureUp(1));
    let (s, out2) = s.step(ScalerMessage::EnsureUp(2));
    let (s, out3) = s.step(ScalerMessage::EnsureUp(3));
    assert_eq!(out1.apply, Some(Mutation::Up));
    assert!(out2.apply.is_none());
    assert!(out3.apply.is_none());
    assert_eq!(s.pending, vec![1, 2, 3]);
}

#[test]
fn replies_complete_fifo_once_workload_serves() {
    let s = ScalerState::new(false, 0);
    let (s, _) = s.step(ScalerMessage::EnsureUp(7));
    let (s, _) = s.step(ScalerMessage::EnsureUp(8));
    let (s, _) = s.step(ScalerMessage::EnsureUp(9));
    let (s, out) = s.step(ScalerMessage::CountChanged(count(2, 0)));
    assert_eq!(out.completes, vec![7, 8, 9]);
    assert_eq!(s.phase, Phase::Serving);
    assert!(s.pending.is_empty());
    assert!(out.arm_idle_timer);
}

#[test]
fn no_reply_completes_before_workload_serves() {
    let s = ScalerState::new(false, 0);
    let (s, _) = s.step(ScalerMessage::EnsureUp(1));
    let (s, out) = s.step(ScalerMessage::CountChanged(count(0, 0)));
    assert!(out.completes.is_empty());
    assert_eq!(s.phase, Phase::ScalingUp);
    let (_, out) = s.step(ScalerMessage::MutationSucceeded);
    assert!(out.completes.is_empty());
}

#[test]
fn request_while_serving_completes_immediately_and_resets_timer() {
    let s = ScalerState::new(false, 0);
    let (s, _) = s.step(ScalerMessage::EnsureUp(1));
    let (s, _) = s.step(ScalerMessage::CountChanged(count(1, 0)));
    assert_eq!(s.phase, Phase::Serving);
    let (s, out) = s.step(ScalerMessage::EnsureUp(2));
    assert_eq!(out.completes, vec![2]);
    assert!(out.arm_idle_timer);
    assert!(out.apply.is_none());
    assert_eq!(s.phase, Phase::Serving);
}

#[test]
fn state_round_trip_two_mutations_exactly() {
    let s0 = ScalerState::new(false, 0);
    let (s1, o1) = s0.step(ScalerMessage::EnsureUp(5));
    let phase_after_request = s1.phase;
    let (s2, o2) = s1.step(ScalerMessage::MutationSucceeded);
    let (s3, o3) = s2.step(ScalerMessage::CountChanged(count(1, 0)));
    let phase_once_serving = s3.phase;
    let (s4, o4) = s3.step(ScalerMessage::IdleTimerFired);
    let phase_after_timer = s4.phase;
    let (s5, o5) = s4.step(ScalerMessage::MutationSucceeded);
    let (s6, o6) = s5.step(ScalerMessage::CountChanged(count(0, 0)));
    assert_eq!(phase_after_request, Phase::ScalingUp);
    assert_eq!(phase_once_serving, Phase::Serving);
    assert_eq!(phase_after_timer, Phase::ScalingDown);
    assert_eq!(s6.phase, Phase::Zero);
    let applies: Vec<Mutation> = [&o1, &o2, &o3, &o4, &o5, &o6]
        .iter()
        .filter_map(|o| o.apply)
        .collect();
    assert_eq!(applies, vec![Mutation::Up, Mutation::Down]);
    assert_eq!(o3.completes, vec![5]);
}

#[test]
fn late_mutation_completion_is_quiet_once_serving() {
    let s = ScalerState::new(false, 0);
    let (s, _) = s.step(ScalerMessage::EnsureUp(1));
    // the observer reports serving before the mutation's completion
    let (s, out) = s.step(ScalerMessage::CountChanged(count(1, 0)));
    assert_eq!(out.completes, vec![1]);
    assert_eq!(s.phase, Phase::Serving);
    // a request arrives while the mutation is still in flight
    let (s, out) = s.step(ScalerMessage::EnsureUp(2));
    assert_eq!(out.completes, vec![2]);
    let (s, out) = s.step(ScalerMessage::MutationSucceeded);
    assert!(no_actions(&out));
    assert_eq!(s.phase, Phase::Serving);
}

#[test]
fn idle_timer_is_ignored_while_scaling_up() {
    let s = ScalerState::new(false, 0);
    let (s, _) = s.step(ScalerMessage::EnsureUp(1));
    let (s, out) = s.step(ScalerMessage::IdleTimerFired);
    assert!(no_actions(&out));
    assert_eq!(s.phase, Phase::ScalingUp);
}

#[test]
fn request_resets_idle_timer_so_scale_down_never_fires_under_traffic() {
    let s = ScalerState::new(false, 1);
    let (s, out) = s.step(ScalerMessage::CountChanged(count(1, 0)));
    assert!(out.apply.is_none());
    // traffic keeps arriving; every request re-arms the timer
    let (s, out) = s.step(ScalerMessage::EnsureUp(1));
    assert!(out.arm_idle_timer);
    let (s, out) = s.step(ScalerMessage::EnsureUp(2));
    assert!(out.arm_idle_timer);
    assert_eq!(s.phase, Phase::Serving);
}

#[test]
fn serving_drop_to_zero_suspends_new_requests() {
    let s = ScalerState::new(false, 1);
    let (s, _) = s.step(ScalerMessage::CountChanged(count(1, 0)));
    // a pod restart: the workload count momentarily drops to zero
    let (s, out) = s.step(ScalerMessage::CountChanged(count(0, 0)));
    assert_eq!(s.phase, Phase::ScalingUp);
    assert!(out.cancel_idle_timer);
    let (s, out) = s.step(ScalerMessage::EnsureUp(4));
    assert!(out.completes.is_empty());
    assert_eq!(s.pending, vec![4]);
    // once serving again, the held request completes
    let (_, out) = s.step(ScalerMessage::CountChanged(count(1, 0)));
    assert_eq!(out.completes, vec![4]);
}

#[test]
fn request_during_scale_down_cancels_unsent_mutation() {
    let s = ScalerState::new(false, 0);
    let (s, _) = s.step(ScalerMessage::EnsureUp(1));
    let (s, _) = s.step(ScalerMessage::MutationSucceeded);
    let (s, _) = s.step(ScalerMessage::CountChanged(count(1, 0)));
    // hold the scale-down mutation back behind an in-flight one:
    // simulate by injecting enabled path instead; without injection the
    // mutation goes out at once, so cancellation-by-request needs the
    // in-flight case below. Here: timer fires, mutation goes out.
    let (s, out) = s.step(ScalerMessage::IdleTimerFired);
    assert_eq!(out.apply, Some(Mutation::Down));
    // the request arrives while replicas=0 is in flight
    let (s, out) = s.step(ScalerMessage::EnsureUp(2));
    assert_eq!(s.phase, Phase::ScalingUp);
    assert!(out.apply.is_none());
    // once the old mutation completes, a fresh scale-up is issued
    let (s, out) = s.step(ScalerMessage::MutationSucceeded);
    assert_eq!(out.apply, Some(Mutation::Up));
    assert_eq!(s.pending, vec![2]);
    // the workload never stopped serving, so the fresh scale-up's
    // completion is what finally drains the held reply
    let (s, out) = s.step(ScalerMessage::MutationSucceeded);
    assert_eq!(out.completes, vec![2]);
    assert_eq!(s.phase, Phase::Serving);
}

#[test]
fn request_during_pending_scale_down_with_injection_cancels_it() {
    let s = ScalerState::new(true, 0);
    let (s, _) = s.step(ScalerMessage::EnsureUp(1));
    let (s, _) = s.step(ScalerMessage::MutationSucceeded);
    let (s, _) = s.step(ScalerMessage::CountChanged(count(1, 0)));
    assert_eq!(s.phase, Phase::Serving);
    // timer fires: with injection the mutation waits for the gateway
    let (s, out) = s.step(ScalerMessage::IdleTimerFired);
    assert_eq!(out.injector_op, Some(InjectorOp::Inject));
    assert!(out.apply.is_none());
    assert!(s.down_pending);
    // the request arrives before the mutation was sent: it is dropped
    let (s, out) = s.step(ScalerMessage::EnsureUp(2));
    assert!(!s.down_pending);
    assert!(out.apply != Some(Mutation::Down));
    // workload still serving and gateway quiet: completes at once
    assert_eq!(out.completes, vec![2]);
    assert_eq!(s.phase, Phase::Serving);
}

#[test]
fn injection_ejects_gateway_before_completing_replies() {
    let s = ScalerState::new(true, 0);
    let (s, _) = s.step(ScalerMessage::EnsureUp(1));
    // workload serves but the gateway still serves too: not done yet
    let (s, out) = s.step(ScalerMessage::CountChanged(count(1, 1)));
    assert!(out.completes.is_empty());
    assert_eq!(out.injector_op, Some(InjectorOp::Eject));
    assert_eq!(s.phase, Phase::ScalingUp);
    // gateway gone: replies complete
    let (s, out) = s.step(ScalerMessage::CountChanged(count(1, 0)));
    assert_eq!(out.completes, vec![1]);
    assert_eq!(s.phase, Phase::Serving);
}

#[test]
fn scale_down_with_injection_waits_for_gateway() {
    let s = ScalerState::new(true, 0);
    let (s, _) = s.step(ScalerMessage::EnsureUp(1));
    let (s, _) = s.step(ScalerMessage::MutationSucceeded);
    let (s, _) = s.step(ScalerMessage::CountChanged(count(1, 0)));
    let (s, out) = s.step(ScalerMessage::IdleTimerFired);
    assert_eq!(out.injector_op, Some(InjectorOp::Inject));
    assert!(out.apply.is_none());
    // the gateway starts serving: now the mutation goes out
    let (s, out) = s.step(ScalerMessage::CountChanged(count(1, 1)));
    assert_eq!(out.apply, Some(Mutation::Down));
    let (s, _) = s.step(ScalerMessage::MutationSucceeded);
    let (s, _) = s.step(ScalerMessage::CountChanged(count(0, 1)));
    assert_eq!(s.phase, Phase::Zero);
}

#[test]
fn failed_scale_up_is_retried() {
    let s = ScalerState::new(false, 0);
    let (s, out) = s.step(ScalerMessage::EnsureUp(1));
    assert_eq!(out.apply, Some(Mutation::Up));
    let (s, out) = s.step(ScalerMessage::MutationFailed);
    assert_eq!(out.apply, Some(Mutation::Up));
    let (s, out) = s.step(ScalerMessage::MutationFailed);
    assert_eq!(out.apply, Some(Mutation::Up));
    // requests are still held, never failed
    assert_eq!(s.pending, vec![1]);
}

#[test]
fn failed_scale_down_is_abandoned_after_bounded_attempts() {
    let s = ScalerState::new(false, 0);
    let (s, _) = s.step(ScalerMessage::EnsureUp(1));
    let (s, _) = s.step(ScalerMessage::MutationSucceeded);
    let (s, _) = s.step(ScalerMessage::CountChanged(count(1, 0)));
    let (mut s, out) = s.step(ScalerMessage::IdleTimerFired);
    assert_eq!(out.apply, Some(Mutation::Down));
    let mut attempts = 1;
    loop {
        let (next, out) = s.step(ScalerMessage::MutationFailed);
        s = next;
        match out.apply {
            Some(Mutation::Down) => attempts += 1,
            _ => break,
        }
    }
    assert_eq!(attempts, MAX_DOWN_ATTEMPTS);
    // abandoned: back to serving with the timer armed again
    assert_eq!(s.phase, Phase::Serving);
    assert!(s.idle_armed);
}

#[test]
fn stale_mutation_report_changes_nothing() {
    let s = ScalerState::new(false, 0);
    let (s, out) = s.step(ScalerMessage::MutationSucceeded);
    assert!(no_actions(&out));
    assert_eq!(s.phase, Phase::Zero);
}

#[test]
fn fire_and_forget_scale_up_from_zero() {
    let s = ScalerState::new(false, 0);
    let (s, out) = s.step(ScalerMessage::ScaleUpNow);
    assert_eq!(out.apply, Some(Mutation::Up));
    assert_eq!(s.phase, Phase::ScalingUp);
    assert!(s.pending.is_empty());
}

#[test]
fn fire_and_forget_scale_down_from_serving() {
    let s = ScalerState::new(false, 1);
    let (s, _) = s.step(ScalerMessage::CountChanged(count(1, 0)));
    let (s, out) = s.step(ScalerMessage::ScaleDownNow);
    assert_eq!(out.apply, Some(Mutation::Down));
    assert!(out.cancel_idle_timer);
    assert_eq!(s.phase, Phase::ScalingDown);
}

#[test]
fn scale_down_now_is_ignored_while_requests_wait() {
    let s = ScalerState::new(false, 0);
    let (s, _) = s.step(ScalerMessage::EnsureUp(1));
    let (s, out) = s.step(ScalerMessage::ScaleDownNow);
    assert!(no_actions(&out));
    assert_eq!(s.phase, Phase::ScalingUp);
    assert_eq!(s.pending, vec![1]);
}
