//! The mathematical model of conditions and fulfillments: the variant sets,
//! the deterministic derivation algorithm, the cost metric and its ceiling,
//! and the verification relation.  Contracts throughout the crate are stated
//! over these models.

use vstd::prelude::*;

use crate::hashing::sha256_hex;
use crate::text::u64_be_bytes;

verus! {

/// The global ceiling on a condition's cost.  Constructing a condition whose
/// computed cost exceeds this bound fails with `ConditionError::CostExceeded`.
pub const MAX_COST: usize = 2097152;

/// The maximum nesting depth of compound fulfillments that derivation
/// accepts.  Deeper structures are rejected outright; since every compound
/// level adds a fixed overhead of 1024 to the cost, any structure nested
/// more deeply than this would exceed `MAX_COST` anyway.
pub const MAX_NESTING_DEPTH: usize = 2048;

/// The fixed per-combinator cost overhead of a prefix condition.
pub const PREFIX_COST_OVERHEAD: usize = 1024;

/// A construction-time failure.  Verification mismatches are not errors:
/// `verify` returning `false` is a normal outcome.
#[derive(Clone, Copy, Debug, PartialEq, Eq, Structural)]
pub enum ConditionError {
    /// A constructed condition's cost would exceed `MAX_COST`.
    CostExceeded,
    /// A byte sequence violates a variant's required shape.
    MalformedInput,
    /// Derivation was requested for a variant whose algorithm is not
    /// implemented (threshold, RSA and Ed25519 in this core).
    UnsupportedVariant,
}

/// The kind of a condition or fulfillment.  A fulfillment of one kind only
/// ever derives a condition of the same kind.
pub enum ConditionKind {
    Preimage,
    Prefix,
    Threshold,
    Rsa,
    Ed25519,
}

/// The mathematical value of a condition: a public commitment made of the
/// variant kind, its parameters, a fingerprint and a cost bound.  The
/// threshold kind is an unimplemented extension point; its subconditions are
/// carried as they stand and get no finer model until its algorithm is
/// defined.
#[verifier::ext_equal]
pub enum ConditionModel {
    Preimage { fingerprint: Seq<u8>, cost: nat },
    Prefix {
        prefix: Seq<u8>,
        max_message_length: nat,
        subcondition: Box<ConditionModel>,
        fingerprint: Seq<u8>,
        cost: nat,
    },
    Threshold { threshold: nat, subconditions: Seq<crate::engine::Condition>, cost: nat },
    Rsa { modulus: Seq<u8>, cost: nat },
    Ed25519 { public_key: Seq<u8>, cost: nat },
}

/// The mathematical value of a fulfillment: the private data that
/// establishes a condition.  As with conditions, the unimplemented threshold
/// kind carries its contents as they stand.
#[verifier::ext_equal]
pub enum FulfillmentModel {
    Preimage { preimage: Seq<u8> },
    Prefix { prefix: Seq<u8>, max_message_length: nat, subfulfillment: Box<FulfillmentModel> },
    Threshold {
        subfulfillments: Seq<crate::engine::Fulfillment>,
        subconditions: Seq<crate::engine::Condition>,
    },
    Rsa { modulus: Seq<u8>, signature: Seq<u8> },
    Ed25519 { public_key: Seq<u8>, signature: Seq<u8> },
}

/// The kind of a condition.
pub open spec fn cond_kind(c: ConditionModel) -> ConditionKind {
    match c {
        ConditionModel::Preimage { .. } => ConditionKind::Preimage,
        ConditionModel::Prefix { .. } => ConditionKind::Prefix,
        ConditionModel::Threshold { .. } => ConditionKind::Threshold,
        ConditionModel::Rsa { .. } => ConditionKind::Rsa,
        ConditionModel::Ed25519 { .. } => ConditionKind::Ed25519,
    }
}

/// The kind of a fulfillment.
pub open spec fn ful_kind(f: FulfillmentModel) -> ConditionKind {
    match f {
        FulfillmentModel::Preimage { .. } => ConditionKind::Preimage,
        FulfillmentModel::Prefix { .. } => ConditionKind::Prefix,
        FulfillmentModel::Threshold { .. } => ConditionKind::Threshold,
        FulfillmentModel::Rsa { .. } => ConditionKind::Rsa,
        FulfillmentModel::Ed25519 { .. } => ConditionKind::Ed25519,
    }
}

/// The cost bound a condition commits to.
pub open spec fn cond_cost(c: ConditionModel) -> nat {
    match c {
        ConditionModel::Preimage { cost, .. } => cost,
        ConditionModel::Prefix { cost, .. } => cost,
        ConditionModel::Threshold { cost, .. } => cost,
        ConditionModel::Rsa { cost, .. } => cost,
        ConditionModel::Ed25519 { cost, .. } => cost,
    }
}

/// The fingerprint a condition commits to.  The placeholder kinds, whose
/// derivation is not implemented, carry no fingerprint yet.
pub open spec fn cond_fingerprint(c: ConditionModel) -> Seq<u8> {
    match c {
        ConditionModel::Preimage { fingerprint, .. } => fingerprint,
        ConditionModel::Prefix { fingerprint, .. } => fingerprint,
        _ => Seq::empty(),
    }
}

/// The canonical byte sequence hashed to fingerprint a prefix condition: the
/// prefix itself, then the maximum message length as eight big-endian bytes,
/// then the subcondition's fingerprint.
pub open spec fn prefix_fingerprint_input(
    prefix: Seq<u8>,
    max_message_length: nat,
    sub_fingerprint: Seq<u8>,
) -> Seq<u8> {
    prefix + u64_be_bytes(max_message_length as u64) + sub_fingerprint
}

/// How many prefix combinators are stacked at the root of `f`.
pub open spec fn prefix_depth(f: FulfillmentModel) -> nat
    decreases f,
{
    match f {
        FulfillmentModel::Prefix { subfulfillment, .. } => 1 + prefix_depth(*subfulfillment),
        _ => 0,
    }
}

/// Whether every level of `f` is of a kind whose derivation is implemented.
pub open spec fn supported(f: FulfillmentModel) -> bool
    decreases f,
{
    match f {
        FulfillmentModel::Preimage { .. } => true,
        FulfillmentModel::Prefix { subfulfillment, .. } => supported(*subfulfillment),
        _ => false,
    }
}

/// The cost that deriving `f` would compute, before the ceiling is applied:
/// a preimage costs its length; a prefix costs its prefix length plus its
/// maximum message length plus its subcondition's cost plus a fixed
/// overhead.
pub open spec fn raw_cost(f: FulfillmentModel) -> nat
    decreases f,
{
    match f {
        FulfillmentModel::Preimage { preimage } => preimage.len(),
        FulfillmentModel::Prefix { prefix, max_message_length, subfulfillment } => prefix.len()
            + max_message_length + raw_cost(*subfulfillment) + PREFIX_COST_OVERHEAD as nat,
        _ => 0,
    }
}

/// Whether the computed cost stays within `MAX_COST` at every level of `f`.
pub open spec fn within_budget(f: FulfillmentModel) -> bool
    decreases f,
{
    match f {
        FulfillmentModel::Preimage { preimage } => preimage.len() <= MAX_COST as nat,
        FulfillmentModel::Prefix { subfulfillment, .. } => within_budget(*subfulfillment)
            && raw_cost(f) <= MAX_COST as nat,
        _ => true,
    }
}

/// Whether derivation succeeds on `f`: every level is of an implemented
/// kind, every computed cost stays within the ceiling, and the nesting depth
/// stays within the structural bound.
pub open spec fn derivable(f: FulfillmentModel) -> bool {
    supported(f) && within_budget(f) && prefix_depth(f) <= MAX_NESTING_DEPTH as nat
}

/// The structural derivation of a condition from a fulfillment: a preimage
/// fulfillment hashes its preimage; a prefix fulfillment first derives its
/// subcondition, then fingerprints the canonical encoding of its parameters
/// together with the subcondition's fingerprint.  Costs above `MAX_COST` and
/// unimplemented kinds fail.
pub open spec fn spec_derive_raw(f: FulfillmentModel) -> Result<ConditionModel, ConditionError>
    decreases f,
{
    match f {
        FulfillmentModel::Preimage { preimage } => if preimage.len() > MAX_COST as nat {
            Err(ConditionError::CostExceeded)
        } else {
            Ok(
                ConditionModel::Preimage {
                    fingerprint: sha256_hex(preimage),
                    cost: preimage.len(),
                },
            )
        },
        FulfillmentModel::Prefix { prefix, max_message_length, subfulfillment } => match spec_derive_raw(
            *subfulfillment,
        ) {
            Ok(sub) => {
                let cost = prefix.len() + max_message_length + cond_cost(sub)
                    + PREFIX_COST_OVERHEAD as nat;
                if cost > MAX_COST as nat {
                    Err(ConditionError::CostExceeded)
                } else {
                    Ok(
                        ConditionModel::Prefix {
                            prefix,
                            max_message_length,
                            fingerprint: sha256_hex(
                                prefix_fingerprint_input(
                                    prefix,
                                    max_message_length,
                                    cond_fingerprint(sub),
                                ),
                            ),
                            subcondition: Box::new(sub),
                            cost,
                        },
                    )
                }
            },
            Err(e) => Err(e),
        },
        _ => Err(ConditionError::UnsupportedVariant),
    }
}

/// The derivation algorithm as published: structures nested beyond
/// `MAX_NESTING_DEPTH` are rejected outright with `CostExceeded` (they could
/// never stay within the cost ceiling), everything else derives
/// structurally.
pub open spec fn spec_derive(f: FulfillmentModel) -> Result<ConditionModel, ConditionError> {
    if prefix_depth(f) > MAX_NESTING_DEPTH as nat {
        Err(ConditionError::CostExceeded)
    } else {
        spec_derive_raw(f)
    }
}

/// The verification relation: a fulfillment satisfies exactly the condition
/// it derives, compared structurally; a fulfillment that derives no
/// condition satisfies none.
pub open spec fn spec_verify(f: FulfillmentModel, c: ConditionModel) -> bool {
    match spec_derive(f) {
        Ok(derived) => derived == c,
        Err(_) => false,
    }
}

/// Whether every level of `c` is of a kind whose derivation is implemented,
/// so that `c` could have been derived from a fulfillment.
pub open spec fn supported_cond(c: ConditionModel) -> bool
    decreases c,
{
    match c {
        ConditionModel::Preimage { .. } => true,
        ConditionModel::Prefix { subcondition, .. } => supported_cond(*subcondition),
        _ => false,
    }
}

/// Whether the fingerprint `c` commits to consists of ASCII lowercase hex
/// digits, as every fingerprint that derivation computes does.
pub open spec fn fingerprint_hex(c: ConditionModel) -> bool {
    forall|i: int|
        0 <= i < cond_fingerprint(c).len() ==> crate::hashing::is_hex_digit_byte(
            #[trigger] cond_fingerprint(c)[i],
        )
}

/// Characterizes structural derivation: it succeeds exactly on supported,
/// within-budget fulfillments; it fails with `UnsupportedVariant` exactly
/// when an unimplemented kind occurs, and with `CostExceeded` exactly when
/// the kinds are fine but the cost ceiling is hit; and on success the
/// derived condition's cost is the computed raw cost, within the ceiling,
/// and its kind matches the fulfillment's.
pub proof fn lemma_derive_raw_characterization(f: FulfillmentModel)
    ensures
        spec_derive_raw(f) is Ok <==> (supported(f) && within_budget(f)),
        !supported(f) ==> spec_derive_raw(f) == Err::<ConditionModel, ConditionError>(
            ConditionError::UnsupportedVariant,
        ),
        supported(f) && !within_budget(f) ==> spec_derive_raw(f) == Err::<
            ConditionModel,
            ConditionError,
        >(ConditionError::CostExceeded),
        spec_derive_raw(f) is Ok ==> cond_cost(spec_derive_raw(f)->Ok_0) == raw_cost(f),
        spec_derive_raw(f) is Ok ==> cond_cost(spec_derive_raw(f)->Ok_0) <= MAX_COST as nat,
        spec_derive_raw(f) is Ok ==> cond_kind(spec_derive_raw(f)->Ok_0) == ful_kind(f),
    decreases f,
{
    match f {
        FulfillmentModel::Prefix { subfulfillment, .. } => {
            lemma_derive_raw_characterization(*subfulfillment);
        },
        _ => {},
    }
}

/// Derivation succeeds exactly on derivable fulfillments, and a derived
/// condition's cost never exceeds the ceiling.
pub proof fn lemma_derive_characterization(f: FulfillmentModel)
    ensures
        spec_derive(f) is Ok <==> derivable(f),
        spec_derive(f) is Ok ==> spec_derive(f) == spec_derive_raw(f),
        spec_derive(f) is Ok ==> cond_cost(spec_derive(f)->Ok_0) == raw_cost(f),
        spec_derive(f) is Ok ==> cond_cost(spec_derive(f)->Ok_0) <= MAX_COST as nat,
        spec_derive(f) is Ok ==> cond_kind(spec_derive(f)->Ok_0) == ful_kind(f),
{
    lemma_derive_raw_characterization(f);
}

} // verus!
