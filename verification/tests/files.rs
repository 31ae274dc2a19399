use update_rs::files::{
    after_attempt, temp_app_file_name, AttemptOutcome, FileOperation, RetryDecision, MAX_RETRIES,
    RETRY_DELAY_MILLIS,
};

#[test]
fn test_get_temp_app_path() {
    assert_eq!(temp_app_file_name(Some("myapp"), Some("exe"), "v1.0.0", false), "myapp-v1.0.0.exe");
    assert_eq!(temp_app_file_name(Some("myapp"), None, "v1.0.0", false), "myapp-v1.0.0");
    assert_eq!(temp_app_file_name(Some("myapp"), None, "v1.0.0", true), "myapp-v1.0.0.exe");
    assert_eq!(temp_app_file_name(None, None, "v1.0.0", false), "update-v1.0.0");
}

#[test]
fn missing_file_counts_as_deleted() {
    assert_eq!(after_attempt(FileOperation::Delete, AttemptOutcome::NotFound, 0), RetryDecision::Done);
    assert_eq!(after_attempt(FileOperation::Delete, AttemptOutcome::Succeeded, 3), RetryDecision::Done);
    assert_eq!(
        after_attempt(FileOperation::Copy, AttemptOutcome::NotFound, 0),
        RetryDecision::RetryAfter { attempt: 1, delay_millis: RETRY_DELAY_MILLIS }
    );
}

#[test]
fn failures_are_retried_then_reported() {
    let mut attempt = 0;
    let mut tries = 1;
    loop {
        match after_attempt(FileOperation::Copy, AttemptOutcome::Failed, attempt) {
            RetryDecision::RetryAfter { attempt: next, delay_millis } => {
                assert_eq!(delay_millis, 500);
                assert_eq!(next, attempt + 1);
                attempt = next;
                tries += 1;
            }
            RetryDecision::GiveUp => break,
            RetryDecision::Done => panic!("a failure is never done"),
        }
    }
    assert_eq!(attempt, MAX_RETRIES);
    assert_eq!(tries, 11);
}
