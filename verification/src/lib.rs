//! A crypto-conditions engine: composable cryptographic conditions and the
//! fulfillments that satisfy them.
//!
//! A `Condition` is a compact, publicly shareable commitment (kind, cost
//! bound, fingerprint).  A `Fulfillment` is the private data that, when
//! evaluated, must deterministically reproduce the exact condition it claims
//! to satisfy.  The library derives conditions from fulfillments, verifies
//! fulfillments against conditions, and renders conditions as canonical URIs.

pub mod condition;
pub mod engine;
pub mod fulfillment;
pub mod hashing;
pub mod laws;
pub mod model;
pub mod text;
pub mod uri;

pub use condition::Ed25519;
pub use condition::PrefixSha256Condition;
pub use condition::PreimageSha256Condition;
pub use condition::Rsa;
pub use condition::Threshold;
pub use engine::Condition;
pub use engine::Fulfillment;
pub use engine::derive_condition;
pub use fulfillment::PrefixSha256Fulfillment;
pub use fulfillment::PreimageSha256Fulfillment;
pub use model::ConditionError;
pub use model::MAX_COST;
pub use model::MAX_NESTING_DEPTH;
