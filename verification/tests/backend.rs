use mcp_gateway::backend::{
    apply_probe, get_backend_status, poll_finish, poll_step, record_engine_spawn,
    record_litellm_spawn, record_resolution_failure, shutdown_services, BackendState,
    BackendStatus,
};

#[test]
fn probe_with_both_healthy_marks_both_and_skips_spawn() {
    let mut state = BackendState::new();
    let spawn_needed = apply_probe(&mut state, true, true);
    assert!(!spawn_needed);
    assert!(state.status.engine_ready);
    assert!(state.status.litellm_ready);
    assert!(state.engine_process.is_none());
    assert!(state.litellm_process.is_none());
    assert!(state.status.error.is_none());
}

#[test]
fn probe_with_engine_only_leaves_proxy_unready() {
    let mut state = BackendState::new();
    let spawn_needed = apply_probe(&mut state, true, false);
    assert!(!spawn_needed);
    assert!(state.status.engine_ready);
    assert!(!state.status.litellm_ready);
}

#[test]
fn probe_with_engine_down_requests_spawn() {
    let mut state = BackendState::new();
    let spawn_needed = apply_probe(&mut state, false, true);
    assert!(spawn_needed);
    assert!(!state.status.engine_ready);
    assert!(!state.status.litellm_ready);
}

#[test]
fn resolution_failure_is_recorded_and_engine_stays_unready() {
    let mut state = BackendState::new();
    record_resolution_failure(&mut state, "no directory".to_string());
    assert!(!state.status.engine_ready);
    assert_eq!(state.status.error.as_deref(), Some("no directory"));
}

#[test]
fn engine_spawn_success_stores_the_handle() {
    let mut state = BackendState::new();
    record_engine_spawn(&mut state, Ok(4711));
    assert_eq!(state.engine_process, Some(4711));
    assert!(state.status.error.is_none());
}

#[test]
fn engine_spawn_failure_is_recorded_but_not_fatal() {
    let mut state = BackendState::new();
    record_engine_spawn(&mut state, Err("uv spawn error: missing".to_string()));
    assert_eq!(state.engine_process, None);
    assert_eq!(
        state.status.error.as_deref(),
        Some("Engine spawn failed: uv spawn error: missing")
    );
}

#[test]
fn litellm_spawn_failure_changes_nothing() {
    let mut state = BackendState::new();
    record_litellm_spawn(&mut state, None);
    assert_eq!(state.litellm_process, None);
    assert!(state.status.error.is_none());
    record_litellm_spawn(&mut state, Some(99));
    assert_eq!(state.litellm_process, Some(99));
}

#[test]
fn poll_flags_are_monotone_within_a_start() {
    let mut status = BackendStatus::default();
    poll_step(&mut status, false, false);
    assert!(!status.engine_ready && !status.litellm_ready);
    poll_step(&mut status, true, false);
    assert!(status.engine_ready && !status.litellm_ready);
    poll_step(&mut status, false, false);
    assert!(status.engine_ready && !status.litellm_ready);
    poll_step(&mut status, false, true);
    assert!(status.engine_ready && status.litellm_ready);
}

#[test]
fn poll_timeout_with_both_down_records_combined_error() {
    let mut status = BackendStatus::default();
    poll_finish(&mut status);
    assert_eq!(
        status.error.as_deref(),
        Some("Both cognitive-engine and LiteLLM failed to start within timeout.")
    );
}

#[test]
fn poll_timeout_with_engine_down_records_engine_error() {
    let mut status = BackendStatus::default();
    poll_step(&mut status, false, true);
    poll_finish(&mut status);
    assert_eq!(
        status.error.as_deref(),
        Some("Cognitive-engine failed to start within timeout.")
    );
}

#[test]
fn poll_timeout_with_only_proxy_down_is_not_fatal() {
    let mut status = BackendStatus::default();
    poll_step(&mut status, true, false);
    poll_finish(&mut status);
    assert!(status.error.is_none());
    assert!(status.engine_ready);
    assert!(!status.litellm_ready);
}

#[test]
fn shutdown_hands_back_owned_processes_and_clears_them() {
    let mut state = BackendState::new();
    record_engine_spawn(&mut state, Ok(11));
    record_litellm_spawn(&mut state, Some(22));
    let (engine, litellm) = shutdown_services(&mut state);
    assert_eq!(engine, Some(11));
    assert_eq!(litellm, Some(22));
    assert!(state.engine_process.is_none());
    assert!(state.litellm_process.is_none());
}

#[test]
fn shutdown_never_touches_externally_found_services() {
    let mut state = BackendState::new();
    apply_probe(&mut state, true, true);
    let (engine, litellm) = shutdown_services(&mut state);
    assert_eq!(engine, None);
    assert_eq!(litellm, None);
    assert!(state.status.engine_ready);
}

#[test]
fn status_read_is_a_faithful_copy() {
    let mut state = BackendState::new();
    apply_probe(&mut state, true, false);
    record_resolution_failure(&mut state, "x".to_string());
    let snapshot = get_backend_status(&state);
    assert!(snapshot.engine_ready);
    assert!(!snapshot.litellm_ready);
    assert_eq!(snapshot.error.as_deref(), Some("x"));
}
