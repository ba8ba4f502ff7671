use nonce_gate::protocol::{decide_presentation, Decision, GateError};

#[test]
fn present_nonce_is_accepted_and_consumed() {
    let (decision, consume) = decide_presentation(true);
    assert!(decision.accepted());
    assert!(consume);
    assert_eq!(decision.status(), 200);
    assert_eq!(decision.message(), "presentation accepted");
}

#[test]
fn absent_nonce_is_rejected_without_consumption() {
    let (decision, consume) = decide_presentation(false);
    assert!(!decision.accepted());
    assert!(!consume);
    assert_eq!(decision.status(), 400);
    assert_eq!(decision.message(), "nonce expired or unknown");
}

#[test]
fn decision_statuses_split_by_class() {
    let success = Decision::Success {
        message: "ok".to_owned(),
    };
    let rejected = Decision::InvalidNonce {
        message: "no".to_owned(),
    };
    assert_eq!(success.status(), 200);
    assert_eq!(rejected.status(), 400);
    assert_eq!(success.message(), "ok");
    assert_eq!(rejected.message(), "no");
}

#[test]
fn store_failure_is_a_server_error_not_a_verdict() {
    let unavailable = GateError::StoreUnavailable;
    assert_eq!(unavailable.status(), 500);
    assert_ne!(unavailable.status(), 200);
    assert_ne!(unavailable.status(), 400);
    assert_eq!(unavailable.message(), "verification store unavailable");
}

#[test]
fn malformed_body_is_a_client_error() {
    let malformed = GateError::MalformedRequest;
    assert_eq!(malformed.status(), 400);
    assert_eq!(malformed.message(), "malformed presentation body");
}
