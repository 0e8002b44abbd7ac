use jungle::graph::StepKind;
use jungle::session::{step_badge, LiveState};
use jungle::{JourneyUpdateEvent, RunnerUpdateOut};
use uuid::Uuid;

fn update(sequence_id: u64, event: RunnerUpdateOut) -> JourneyUpdateEvent {
    JourneyUpdateEvent { sequence_id, event_unix_ms: 0, event }
}

#[test]
fn session_starts_loading_for_a_live_view() {
    assert_eq!(LiveState::new(true).status_text(), "loading live history...");
    assert_eq!(LiveState::new(false).status_text(), "idle");
}

#[test]
fn session_counts_the_live_updates() {
    let mut state = LiveState::new(true);
    assert!(state.apply(update(1, RunnerUpdateOut::EffectInput { node_id: 3, uuid: Uuid::nil() })));
    assert!(state.apply(update(2, RunnerUpdateOut::EffectInput { node_id: 4, uuid: Uuid::nil() })));
    assert!(state.apply(update(3, RunnerUpdateOut::EffectFailureOutput { node_id: 4, uuid: Uuid::nil() })));
    assert!(!state.apply(update(
        5,
        RunnerUpdateOut::SleepFired { uuid: Uuid::nil(), timer_id: Uuid::nil(), fired_at_unix_ms: 0 }
    )));
    assert_eq!(state.status_text(), "events: 5  active: 1  done: 0  failed: 1");
}

#[test]
fn session_reports_a_failed_stream_and_retries() {
    let mut state = LiveState::new(true);
    state.fail("connection reset".to_string());
    assert_eq!(state.status_text(), "live update failed: connection reset");
    let mut generation: u64 = 4;
    state.retry(true, &mut generation);
    assert_eq!(generation, 5);
    assert_eq!(state.status_text(), "loading live history...");
    let mut top: u64 = u64::MAX;
    state.retry(true, &mut top);
    assert_eq!(top, u64::MAX);
}

#[test]
fn session_static_view_ignores_retry() {
    let mut state = LiveState::new(false);
    let mut generation: u64 = 2;
    state.retry(false, &mut generation);
    assert_eq!(generation, 2);
    assert_eq!(state.status_text(), "idle");
}

#[test]
fn step_badges_name_the_step_kind() {
    assert_eq!(step_badge(StepKind::Conditional), "condition");
    assert_eq!(step_badge(StepKind::Select), "select");
    assert_eq!(step_badge(StepKind::Join), "join");
    assert_eq!(step_badge(StepKind::Step), "step");
}
