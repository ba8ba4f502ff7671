use nonce_gate::protocol::{
    issue_challenge, new_challenge, verify_presentation, Presentation, NONCE_TTL_SECONDS,
};
use nonce_gate::store::NonceStore;

fn presentation() -> Presentation {
    Presentation {
        holder: "did:example:1".to_owned(),
    }
}

#[test]
fn issued_token_verifies_within_ttl() {
    let mut store = NonceStore::new();
    let token = issue_challenge(&mut store, 5);
    let decision = verify_presentation(&mut store, &token, &presentation(), 35);
    assert!(decision.accepted());
    assert_eq!(decision.status(), 200);
    assert_eq!(decision.message(), "presentation accepted");
}

#[test]
fn token_verifies_just_before_expiry() {
    let mut store = NonceStore::new();
    let token = issue_challenge(&mut store, 0);
    let decision = verify_presentation(&mut store, &token, &presentation(), NONCE_TTL_SECONDS - 1);
    assert!(decision.accepted());
}

#[test]
fn unknown_token_rejected() {
    let mut store = NonceStore::new();
    let decision = verify_presentation(
        &mut store,
        &"not-a-real-nonce".to_owned(),
        &presentation(),
        0,
    );
    assert!(!decision.accepted());
    assert_eq!(decision.status(), 400);
    assert_eq!(decision.message(), "nonce expired or unknown");
}

#[test]
fn expired_token_rejected() {
    let mut store = NonceStore::new();
    let token = issue_challenge(&mut store, 0);
    let at_expiry = verify_presentation(&mut store, &token, &presentation(), NONCE_TTL_SECONDS);
    assert!(!at_expiry.accepted());
    assert_eq!(at_expiry.status(), 400);
    let well_past = verify_presentation(&mut store, &token, &presentation(), 1000);
    assert!(!well_past.accepted());
}

#[test]
fn token_is_single_use() {
    let mut store = NonceStore::new();
    let token = issue_challenge(&mut store, 0);
    let first = verify_presentation(&mut store, &token, &presentation(), 1);
    let second = verify_presentation(&mut store, &token, &presentation(), 2);
    assert!(first.accepted());
    assert!(!second.accepted());
    assert_eq!(second.status(), 400);
    assert_eq!(second.message(), "nonce expired or unknown");
}

#[test]
fn consumption_leaves_other_tokens_outstanding() {
    let mut store = NonceStore::new();
    let first_token = issue_challenge(&mut store, 0);
    let second_token = issue_challenge(&mut store, 0);
    let first = verify_presentation(&mut store, &first_token, &presentation(), 1);
    assert!(first.accepted());
    let second = verify_presentation(&mut store, &second_token, &presentation(), 2);
    assert!(second.accepted());
}

#[test]
fn issued_tokens_are_unique() {
    let mut seen = std::collections::HashSet::new();
    for _ in 0..10_000 {
        let challenge = new_challenge();
        assert!(seen.insert(challenge.token));
    }
    assert_eq!(seen.len(), 10_000);
}

#[test]
fn challenge_has_expected_shape() {
    let challenge = new_challenge();
    assert_eq!(challenge.token.len(), 36);
    assert_eq!(challenge.ttl_seconds, 60);
    assert_eq!(NONCE_TTL_SECONDS, 60);
}
