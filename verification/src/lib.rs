//! A verified challenge-response nonce gate.
//!
//! A client asks for a single-use challenge token; a later presentation
//! referencing that token is accepted only while the token is still
//! outstanding: issued, not yet expired, and not yet consumed.
//!
//! The crate has two layers:
//! - [`store`]: a key-value store with per-entry expiry, the authoritative
//!   state of every outstanding token;
//! - [`protocol`]: the issuer and the presentation gate built on top of it,
//!   together with the lemmas stating the replay-protection guarantees.

pub mod protocol;
pub mod store;
