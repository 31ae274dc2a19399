use update_rs::{UpdatePhase, UpdateState};

#[test]
fn test_to_string() {
    assert_eq!(UpdatePhase::Prepare.to_string(), "prepare");
    assert_eq!(UpdatePhase::Replace.to_string(), "replace");
    assert_eq!(UpdatePhase::Cleanup.to_string(), "cleanup");
    assert_eq!(UpdatePhase::NoUpdate.to_string(), "no-update");
}

#[test]
fn test_for_phase() {
    let carrier = vec![("traceparent".to_string(), "abc".to_string())];
    let update = UpdateState {
        target_application: Some("/bin/app".to_string()),
        temporary_application: Some("/tmp/app-update".to_string()),
        trace_context: Some(carrier),
        phase: UpdatePhase::Replace,
    };

    let new_update = update.for_phase(UpdatePhase::Cleanup);
    assert_eq!(new_update.target_application, update.target_application);
    assert_eq!(
        new_update.temporary_application,
        update.temporary_application
    );
    assert_eq!(
        new_update.trace_context, update.trace_context,
        "the trace context should be carried forward to the next phase"
    );
    assert_eq!(
        update.phase,
        UpdatePhase::Replace,
        "the old update entry should not be modified"
    );
    assert_eq!(
        new_update.phase,
        UpdatePhase::Cleanup,
        "the new update entry should have the correct phase"
    );
}

#[test]
fn state_defaults_and_prints_its_phase() {
    let state = UpdateState::default();
    assert_eq!(state.phase, UpdatePhase::NoUpdate);
    assert_eq!(UpdatePhase::default(), UpdatePhase::NoUpdate);
    assert_eq!(state.target_application, None);
    assert_eq!(state.to_string(), "NoUpdate");
    assert_eq!(state.for_phase(UpdatePhase::Prepare).to_string(), "Prepare");
}

#[test]
fn capture_trace_context_only_keeps_a_non_empty_carrier() {
    let mut state = UpdateState {
        phase: UpdatePhase::Replace,
        ..Default::default()
    };
    state.capture_trace_context(Vec::new());
    assert_eq!(state.trace_context, None);
    state.capture_trace_context(vec![("traceparent".to_string(), "00-1-2-01".to_string())]);
    assert_eq!(
        state.trace_context,
        Some(vec![("traceparent".to_string(), "00-1-2-01".to_string())])
    );
    state.capture_trace_context(Vec::new());
    assert!(state.trace_context.is_some(), "an empty carrier keeps the previous one");
}

fn pair(k: &str, v: &str) -> (String, String) {
    (k.to_string(), v.to_string())
}

#[test]
fn states_are_equal_whatever_the_order_of_their_trace_context() {
    let a = UpdateState {
        target_application: Some("/bin/app".to_string()),
        temporary_application: None,
        trace_context: Some(vec![pair("traceparent", "00-1-2-01"), pair("tracestate", "k=v")]),
        phase: UpdatePhase::Replace,
    };
    let b = UpdateState {
        trace_context: Some(vec![pair("tracestate", "k=v"), pair("traceparent", "00-1-2-01")]),
        ..a.clone()
    };
    assert_eq!(a, b);
    assert_eq!(a, a.for_phase(UpdatePhase::Replace));

    let other_value = UpdateState {
        trace_context: Some(vec![pair("traceparent", "00-1-2-01"), pair("tracestate", "k=w")]),
        ..a.clone()
    };
    assert_ne!(a, other_value);
    let fewer = UpdateState {
        trace_context: Some(vec![pair("traceparent", "00-1-2-01")]),
        ..a.clone()
    };
    assert_ne!(a, fewer);
    let none = UpdateState {
        trace_context: None,
        ..a.clone()
    };
    assert_ne!(a, none);
    assert_ne!(a, a.for_phase(UpdatePhase::Cleanup));
    let other_path = UpdateState {
        target_application: Some("/bin/other".to_string()),
        ..a.clone()
    };
    assert_ne!(a, other_path);
}
