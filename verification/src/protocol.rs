//! The challenge-response protocol around the nonce store.
//!
//! The issuer creates a fresh random token and registers it with a fixed
//! time-to-live; the presentation gate accepts a presentation only while
//! its token is live, and consumes the token on success so it can never
//! be accepted twice. Unknown, expired and consumed tokens are rejected
//! identically, so a rejection never reveals which case occurred.

use vstd::prelude::*;

use crate::store::{live, NonceStore};

verus! {

/// Every challenge token lives for exactly this many seconds unless it
/// is consumed first: one system-wide constant, never per-request.
pub const NONCE_TTL_SECONDS: u64 = 60;

/// The message carried by an accepting decision.
pub open spec fn accepted_message() -> Seq<char> {
    "presentation accepted"@
}

/// The message carried by a rejecting decision. One message for unknown,
/// expired and consumed tokens alike: rejections must not help a caller
/// probe which case occurred.
pub open spec fn rejected_message() -> Seq<char> {
    "nonce expired or unknown"@
}

/// An incoming presentation. The payload is opaque: the nonce machinery
/// reads nothing from it and guards only against replay. `holder` is a
/// free-form identity string.
pub struct Presentation {
    pub holder: String,
}

/// The decision taken on a presentation.
pub enum Decision {
    Success { message: String },
    InvalidNonce { message: String },
}

impl Decision {
    /// The message a decision carries, whichever the verdict.
    pub open spec fn spec_message(&self) -> Seq<char> {
        match self {
            Decision::Success { message } => message@,
            Decision::InvalidNonce { message } => message@,
        }
    }

    /// Whether the presentation was accepted.
    pub fn accepted(&self) -> (r: bool)
        ensures
            r == (self is Success),
    {
        match self {
            Decision::Success { .. } => true,
            Decision::InvalidNonce { .. } => false,
        }
    }

    /// The HTTP status class of the decision: acceptance is 200, a
    /// rejected nonce is 400.
    pub fn status(&self) -> (code: u16)
        ensures
            code == if self is Success {
                200u16
            } else {
                400u16
            },
    {
        match self {
            Decision::Success { .. } => 200,
            Decision::InvalidNonce { .. } => 400,
        }
    }

    /// The human-readable message of the decision.
    pub fn message(&self) -> (m: &String)
        ensures
            m@ == self.spec_message(),
    {
        match self {
            Decision::Success { message } => message,
            Decision::InvalidNonce { message } => message,
        }
    }
}

/// A failure that is not a decision on the nonce: the request never
/// reached the point of being decided upon. Never conflated with
/// `Decision::InvalidNonce`.
pub enum GateError {
    /// The nonce store could not be reached or did not carry out the
    /// operation: an infrastructure failure, surfaced as a server error.
    StoreUnavailable,
    /// The presentation body does not have the expected shape.
    MalformedRequest,
}

impl GateError {
    /// The message of an error response: deliberately generic, never
    /// leaking connection strings or other internals of the store.
    pub open spec fn spec_message(&self) -> Seq<char> {
        match self {
            GateError::StoreUnavailable => "verification store unavailable"@,
            GateError::MalformedRequest => "malformed presentation body"@,
        }
    }

    /// The HTTP status class of the error: an unreachable store is a
    /// server-side failure, a malformed body a client error. Neither is
    /// ever 200, so an error is never mistaken for acceptance.
    pub fn status(&self) -> (code: u16)
        ensures
            code == if self is StoreUnavailable {
                500u16
            } else {
                400u16
            },
    {
        match self {
            GateError::StoreUnavailable => 500,
            GateError::MalformedRequest => 400,
        }
    }

    /// The human-readable message of the error.
    pub fn message(&self) -> (m: String)
        ensures
            m@ == self.spec_message(),
    {
        match self {
            GateError::StoreUnavailable => "verification store unavailable".to_owned(),
            GateError::MalformedRequest => "malformed presentation body".to_owned(),
        }
    }
}

/// A freshly issued challenge: the token to hand to the client and the
/// time-to-live under which the store must register it.
pub struct Challenge {
    pub token: String,
    pub ttl_seconds: u64,
}

/// Relies on `uuid::Uuid::new_v4` rendered through its `Display` impl:
/// a freshly generated random version-4 UUID in hyphenated form is
/// always 36 characters. Nothing more is assumed of the value — it is
/// random, so no two calls are related to one another.
#[verifier::external_body]
fn random_token() -> (token: String)
    ensures
        token@.len() == 36,
{
    uuid::Uuid::new_v4().to_string()
}

/// The issuer's decision: a fresh random token, to be stored under its
/// own value for exactly the system-wide time-to-live. A caller whose
/// store is external performs the write itself and must surface
/// `GateError::StoreUnavailable` if the write does not succeed.
pub fn new_challenge() -> (c: Challenge)
    ensures
        c.token@.len() == 36,
        c.ttl_seconds == NONCE_TTL_SECONDS,
{
    Challenge { token: random_token(), ttl_seconds: NONCE_TTL_SECONDS }
}

/// Issues a challenge against the store: generates a fresh token and
/// registers it with the system-wide time-to-live, leaving every other
/// entry untouched.
pub fn issue_challenge(store: &mut NonceStore, now: u64) -> (token: String)
    requires
        old(store).wf(),
        now + NONCE_TTL_SECONDS <= u64::MAX,
    ensures
        final(store).wf(),
        token@.len() == 36,
        final(store)@ == old(store)@.insert(token@, (now + NONCE_TTL_SECONDS) as u64),
{
    let challenge = new_challenge();
    let token = challenge.token;
    store.set_with_expiry(token.clone(), challenge.ttl_seconds, now);
    token
}

/// The decision from the store's answer alone: accept exactly when the
/// token is present (and hence live), and in that case demand
/// its consumption — the second component tells the caller to delete
/// the token so it can never be accepted again. A caller whose store is
/// external performs the lookup and the deletion itself.
pub fn decide_presentation(nonce_present: bool) -> (r: (Decision, bool))
    ensures
        (r.0 is Success) == nonce_present,
        r.1 == nonce_present,
        nonce_present ==> (r.0 matches Decision::Success { message } && message@
            == accepted_message()),
        !nonce_present ==> (r.0 matches Decision::InvalidNonce { message } && message@
            == rejected_message()),
{
    if nonce_present {
        (Decision::Success { message: "presentation accepted".to_owned() }, true)
    } else {
        (Decision::InvalidNonce { message: "nonce expired or unknown".to_owned() }, false)
    }
}

/// Judges a presentation against the store: accepts exactly when the
/// submitted token is live at `now`, and consumes the token on success
/// so that the same token is rejected ever after. On rejection the
/// store is left untouched, and the verdict does not reveal whether the
/// token was unknown, expired or already consumed.
pub fn verify_presentation(
    store: &mut NonceStore,
    nonce: &String,
    _presentation: &Presentation,
    now: u64,
) -> (decision: Decision)
    requires
        old(store).wf(),
    ensures
        final(store).wf(),
        (decision is Success) == live(old(store)@, nonce@, now),
        live(old(store)@, nonce@, now) ==> (final(store)@ == old(store)@.remove(nonce@) && (
        decision matches Decision::Success { message } && message@ == accepted_message())),
        !live(old(store)@, nonce@, now) ==> (final(store)@ == old(store)@ && (
        decision matches Decision::InvalidNonce { message } && message@ == rejected_message())),
{
    let nonce_present = store.present(nonce, now);
    let (decision, consume) = decide_presentation(nonce_present);
    if consume {
        store.delete(nonce);
    }
    decision
}

/// Law: a token just registered with the full time-to-live window is
/// live at every instant strictly before its expiry, whatever else the
/// store holds — so a presentation submitted within the window is
/// accepted. Together with `lemma_consumed_token_not_live` this makes
/// the acceptance happen exactly once.
pub proof fn lemma_issued_token_is_live(
    m: Map<Seq<char>, u64>,
    token: Seq<char>,
    issued_at: u64,
    now: u64,
)
    requires
        issued_at + NONCE_TTL_SECONDS <= u64::MAX,
        now < issued_at + NONCE_TTL_SECONDS,
    ensures
        live(m.insert(token, (issued_at + NONCE_TTL_SECONDS) as u64), token, now),
{
}

/// Law: a token the store has never held is not live at any instant, so
/// a presentation with a never-issued token is always rejected.
pub proof fn lemma_unknown_token_not_live(m: Map<Seq<char>, u64>, token: Seq<char>, now: u64)
    requires
        !m.contains_key(token),
    ensures
        !live(m, token, now),
{
}

/// Law: once the full time-to-live has passed since issuance, an
/// unconsumed token is no longer live, so a late presentation is
/// rejected — expiry is enforced.
pub proof fn lemma_expired_token_not_live(
    m: Map<Seq<char>, u64>,
    token: Seq<char>,
    issued_at: u64,
    now: u64,
)
    requires
        issued_at + NONCE_TTL_SECONDS <= u64::MAX,
        issued_at + NONCE_TTL_SECONDS <= now,
    ensures
        !live(m.insert(token, (issued_at + NONCE_TTL_SECONDS) as u64), token, now),
{
}

/// Law: consuming a token removes it from the store, after which it is
/// not live at any instant whatsoever — a second presentation of a
/// once-accepted token is always rejected.
pub proof fn lemma_consumed_token_not_live(m: Map<Seq<char>, u64>, token: Seq<char>, now: u64)
    ensures
        !live(m.remove(token), token, now),
{
}

} // verus!
