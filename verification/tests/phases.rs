use update_rs::phases::{begin_update, check_target_writable, plan_phase};
use update_rs::{Release, ReleaseVariant, ReleaseVersion, Step, UpdateError, UpdatePhase, UpdateState};

fn release(variant: Option<&str>) -> Release {
    Release {
        id: "v2.0.0".to_string(),
        changelog: String::new(),
        version: ReleaseVersion::parse("2.0.0").unwrap(),
        prerelease: false,
        variant: variant.map(|n| ReleaseVariant {
            name: n.to_string(),
            sha256: None,
        }),
    }
}

fn state(phase: UpdatePhase, target: Option<&str>, temp: Option<&str>) -> UpdateState {
    UpdateState {
        target_application: target.map(|s| s.to_string()),
        temporary_application: temp.map(|s| s.to_string()),
        trace_context: None,
        phase,
    }
}

#[test]
fn begin_update_starts_in_prepare() {
    let s = begin_update("/bin/app", "/tmp/app-v2.0.0", &release(Some("app-linux-amd64"))).unwrap();
    assert_eq!(s, state(UpdatePhase::Prepare, Some("/bin/app"), Some("/tmp/app-v2.0.0")));
}

#[test]
fn begin_update_needs_a_matching_asset() {
    assert_eq!(
        begin_update("/bin/app", "/tmp/app-v2.0.0", &release(None)),
        Err(UpdateError::NoMatchingAsset {
            release: "v2.0.0".to_string()
        })
    );
}

#[test]
fn prepare_launches_the_download_for_replace() {
    let plan = plan_phase(&state(UpdatePhase::Prepare, Some("app"), Some("app-temp")), Vec::new()).unwrap();
    assert!(plan.processed);
    assert_eq!(plan.steps.len(), 1);
    match &plan.steps[0] {
        Step::Launch { app, state: next } => {
            assert_eq!(app, "app-temp");
            assert_eq!(next, &state(UpdatePhase::Replace, Some("app"), Some("app-temp")));
        }
        other => panic!("unexpected step {other:?}"),
    }
}

#[test]
fn test_update_resume_plan() {
    // The replace phase deletes the original, copies the download over it and
    // launches it for cleanup.
    let carrier = vec![("traceparent".to_string(), "00-a-b-01".to_string())];
    let plan = plan_phase(&state(UpdatePhase::Replace, Some("app"), Some("app-temp")), carrier.clone()).unwrap();
    assert!(plan.processed, "the update should be applied");
    assert_eq!(plan.steps.len(), 3);
    assert!(matches!(&plan.steps[0], Step::DeleteFile { path } if path == "app"));
    assert!(matches!(&plan.steps[1], Step::CopyFile { from, to } if from == "app-temp" && to == "app"));
    match &plan.steps[2] {
        Step::Launch { app, state: next } => {
            assert_eq!(app, "app");
            assert_eq!(next.phase, UpdatePhase::Cleanup);
            assert_eq!(next.trace_context, Some(carrier));
        }
        other => panic!("unexpected step {other:?}"),
    }
}

#[test]
fn test_update_cleanup_plan() {
    let plan = plan_phase(&state(UpdatePhase::Cleanup, Some("app"), Some("app-temp")), Vec::new()).unwrap();
    assert!(plan.processed, "the update should be applied");
    assert_eq!(plan.steps.len(), 1);
    assert!(matches!(&plan.steps[0], Step::DeleteFile { path } if path == "app-temp"));
}

#[test]
fn no_update_does_nothing() {
    let plan = plan_phase(&UpdateState::default(), Vec::new()).unwrap();
    assert!(!plan.processed);
    assert!(plan.steps.is_empty());
}

#[test]
fn phases_need_their_paths() {
    assert_eq!(
        plan_phase(&state(UpdatePhase::Prepare, Some("app"), None), Vec::new()).unwrap_err(),
        UpdateError::MissingTemporaryApplication { phase: UpdatePhase::Prepare }
    );
    assert_eq!(
        plan_phase(&state(UpdatePhase::Replace, Some("app"), None), Vec::new()).unwrap_err(),
        UpdateError::MissingTemporaryApplication { phase: UpdatePhase::Replace }
    );
    assert_eq!(
        plan_phase(&state(UpdatePhase::Replace, None, Some("app-temp")), Vec::new()).unwrap_err(),
        UpdateError::MissingTargetApplication { phase: UpdatePhase::Replace }
    );
    assert_eq!(
        plan_phase(&state(UpdatePhase::Cleanup, Some("app"), None), Vec::new()).unwrap_err(),
        UpdateError::MissingTemporaryApplication { phase: UpdatePhase::Cleanup }
    );
}

#[test]
fn law_case_update_walks_three_phases() {
    let s0 = begin_update("app", "app-temp", &release(Some("a"))).unwrap();
    let p0 = plan_phase(&s0, Vec::new()).unwrap();
    let s1 = match &p0.steps[0] {
        Step::Launch { state, .. } => state.for_phase(state.phase),
        other => panic!("unexpected step {other:?}"),
    };
    assert_eq!(s1.phase, UpdatePhase::Replace);
    let p1 = plan_phase(&s1, Vec::new()).unwrap();
    let s2 = match &p1.steps[2] {
        Step::Launch { state, .. } => state.for_phase(state.phase),
        other => panic!("unexpected step {other:?}"),
    };
    assert_eq!(s2.phase, UpdatePhase::Cleanup);
    let p2 = plan_phase(&s2, Vec::new()).unwrap();
    assert!(p2.steps.iter().all(|s| !matches!(s, Step::Launch { .. })));
}

#[test]
fn a_read_only_target_is_refused() {
    assert_eq!(check_target_writable(true), Err(UpdateError::ReadOnlyTarget));
    assert_eq!(check_target_writable(false), Ok(()));
}
