//! The condition and fulfillment variant sets, the derivation engine that
//! maps a fulfillment to the condition it establishes, and the verifier.

use vstd::prelude::*;

use crate::hashing::sha256_hex_digest;
use crate::model::ConditionError;
use crate::model::ConditionModel;
use crate::model::FulfillmentModel;
use crate::model::MAX_COST;
use crate::model::MAX_NESTING_DEPTH;
use crate::model::PREFIX_COST_OVERHEAD;
use crate::model::cond_cost;
use crate::model::cond_fingerprint;
use crate::model::derivable;
use crate::model::fingerprint_hex;
use crate::model::lemma_derive_raw_characterization;
use crate::model::prefix_depth;
use crate::model::prefix_fingerprint_input;
use crate::model::spec_derive;
use crate::model::spec_derive_raw;
use crate::model::spec_verify;
use crate::model::supported_cond;
use crate::text::bytes_eq;
use crate::text::push_bytes;
use crate::text::push_u64_be;

verus! {

/// A public, shareable commitment to a verification requirement: the variant
/// kind, its parameters, a fingerprint and a cost bound.
#[derive(Debug, PartialEq, Eq, Hash)]
pub enum Condition {
    Preimage { fingerprint: Vec<u8>, cost: usize },
    Prefix {
        prefix: Vec<u8>,
        max_message_length: usize,
        subcondition: Box<Condition>,
        fingerprint: Vec<u8>,
        cost: usize,
    },
    Threshold { threshold: usize, subconditions: Vec<Condition>, cost: usize },
    Rsa { modulus: Vec<u8>, cost: usize },
    Ed25519 { public_key: Vec<u8>, cost: usize },
}

/// Private data that establishes a condition when derivation reproduces it.
#[derive(Debug, PartialEq, Eq, Hash)]
pub enum Fulfillment {
    Preimage { preimage: Vec<u8> },
    Prefix { prefix: Vec<u8>, max_message_length: usize, subfulfillment: Box<Fulfillment> },
    Threshold { subfulfillments: Vec<Fulfillment>, subconditions: Vec<Condition> },
    Rsa { modulus: Vec<u8>, signature: Vec<u8> },
    Ed25519 { public_key: Vec<u8>, signature: Vec<u8> },
}

impl View for Condition {
    type V = ConditionModel;

    open spec fn view(&self) -> ConditionModel
        decreases self,
    {
        match self {
            Condition::Preimage { fingerprint, cost } => ConditionModel::Preimage {
                fingerprint: fingerprint@,
                cost: *cost as nat,
            },
            Condition::Prefix { prefix, max_message_length, subcondition, fingerprint, cost } => ConditionModel::Prefix {
                prefix: prefix@,
                max_message_length: *max_message_length as nat,
                subcondition: Box::new((**subcondition).view()),
                fingerprint: fingerprint@,
                cost: *cost as nat,
            },
            Condition::Threshold { threshold, subconditions, cost } => ConditionModel::Threshold {
                threshold: *threshold as nat,
                subconditions: subconditions@,
                cost: *cost as nat,
            },
            Condition::Rsa { modulus, cost } => ConditionModel::Rsa {
                modulus: modulus@,
                cost: *cost as nat,
            },
            Condition::Ed25519 { public_key, cost } => ConditionModel::Ed25519 {
                public_key: public_key@,
                cost: *cost as nat,
            },
        }
    }
}

impl View for Fulfillment {
    type V = FulfillmentModel;

    open spec fn view(&self) -> FulfillmentModel
        decreases self,
    {
        match self {
            Fulfillment::Preimage { preimage } => FulfillmentModel::Preimage {
                preimage: preimage@,
            },
            Fulfillment::Prefix { prefix, max_message_length, subfulfillment } => FulfillmentModel::Prefix {
                prefix: prefix@,
                max_message_length: *max_message_length as nat,
                subfulfillment: Box::new((**subfulfillment).view()),
            },
            Fulfillment::Threshold { subfulfillments, subconditions } => FulfillmentModel::Threshold {
                subfulfillments: subfulfillments@,
                subconditions: subconditions@,
            },
            Fulfillment::Rsa { modulus, signature } => FulfillmentModel::Rsa {
                modulus: modulus@,
                signature: signature@,
            },
            Fulfillment::Ed25519 { public_key, signature } => FulfillmentModel::Ed25519 {
                public_key: public_key@,
                signature: signature@,
            },
        }
    }
}

/// The model of a derivation result: the condition's model on success, the
/// error unchanged on failure.
pub open spec fn derive_result_view(r: Result<Condition, ConditionError>) -> Result<
    ConditionModel,
    ConditionError,
> {
    match r {
        Ok(c) => Ok(c@),
        Err(e) => Err(e),
    }
}

impl Condition {
    /// The cost bound this condition commits to.
    pub fn get_cost(&self) -> (r: usize)
        ensures
            r as nat == cond_cost(self@),
    {
        match self {
            Condition::Preimage { cost, .. } => *cost,
            Condition::Prefix { cost, .. } => *cost,
            Condition::Threshold { cost, .. } => *cost,
            Condition::Rsa { cost, .. } => *cost,
            Condition::Ed25519 { cost, .. } => *cost,
        }
    }
}

/// The fingerprint of a condition of an implemented kind.
fn supported_fingerprint(c: &Condition) -> (r: &Vec<u8>)
    requires
        supported_cond(c@),
    ensures
        r@ == cond_fingerprint(c@),
{
    match c {
        Condition::Preimage { fingerprint, .. } => fingerprint,
        Condition::Prefix { fingerprint, .. } => fingerprint,
        _ => vstd::pervasive::unreached(),
    }
}

/// Compares a condition of an implemented kind against any condition,
/// structurally.
fn supported_eq(a: &Condition, b: &Condition) -> (r: bool)
    requires
        supported_cond(a@),
    ensures
        r == (a@ == b@),
    decreases a,
{
    match (a, b) {
        (
            Condition::Preimage { fingerprint: fa, cost: ca },
            Condition::Preimage { fingerprint: fb, cost: cb },
        ) => {
            if !bytes_eq(fa, fb) {
                return false;
            }
            if *ca != *cb {
                return false;
            }
            proof {
                assert(a@ =~= b@);
            }
            true
        },
        (
            Condition::Prefix {
                prefix: pa,
                max_message_length: ma,
                subcondition: sa,
                fingerprint: fa,
                cost: ca,
            },
            Condition::Prefix {
                prefix: pb,
                max_message_length: mb,
                subcondition: sb,
                fingerprint: fb,
                cost: cb,
            },
        ) => {
            if !bytes_eq(pa, pb) {
                return false;
            }
            if *ma != *mb {
                return false;
            }
            if !bytes_eq(fa, fb) {
                return false;
            }
            if *ca != *cb {
                return false;
            }
            if !supported_eq(sa, sb) {
                return false;
            }
            proof {
                assert(a@ =~= b@);
            }
            true
        },
        _ => false,
    }
}

/// The derivation engine, bounded by `fuel` levels of prefix nesting so that
/// adversarially deep structures are rejected instead of exhausting the
/// stack.
fn derive_worker(f: &Fulfillment, fuel: usize) -> (r: Result<Condition, ConditionError>)
    ensures
        prefix_depth(f@) <= fuel as nat ==> derive_result_view(r) == spec_derive_raw(f@),
        prefix_depth(f@) > fuel as nat ==> derive_result_view(r) == Err::<
            ConditionModel,
            ConditionError,
        >(ConditionError::CostExceeded),
        r is Ok ==> supported_cond(r->Ok_0@),
        r is Ok ==> fingerprint_hex(r->Ok_0@),
    decreases fuel,
{
    match f {
        Fulfillment::Preimage { preimage } => {
            if preimage.len() > MAX_COST {
                Err(ConditionError::CostExceeded)
            } else {
                let fingerprint = sha256_hex_digest(preimage.as_slice());
                Ok(Condition::Preimage { fingerprint, cost: preimage.len() })
            }
        },
        Fulfillment::Prefix { prefix, max_message_length, subfulfillment } => {
            if fuel == 0 {
                return Err(ConditionError::CostExceeded);
            }
            match derive_worker(subfulfillment, fuel - 1) {
                Err(e) => Err(e),
                Ok(sub) => {
                    proof {
                        lemma_derive_raw_characterization((**subfulfillment)@);
                    }
                    if prefix.len() > MAX_COST || *max_message_length > MAX_COST {
                        return Err(ConditionError::CostExceeded);
                    }
                    let sub_cost = sub.get_cost();
                    let cost = prefix.len() + *max_message_length + sub_cost
                        + PREFIX_COST_OVERHEAD;
                    if cost > MAX_COST {
                        Err(ConditionError::CostExceeded)
                    } else {
                        let mut input: Vec<u8> = Vec::new();
                        push_bytes(&mut input, prefix);
                        push_u64_be(&mut input, *max_message_length as u64);
                        push_bytes(&mut input, supported_fingerprint(&sub));
                        proof {
                            assert(input@ =~= prefix_fingerprint_input(
                                prefix@,
                                *max_message_length as nat,
                                cond_fingerprint(sub@),
                            ));
                        }
                        let fingerprint = sha256_hex_digest(input.as_slice());
                        let r = Condition::Prefix {
                            prefix: prefix.clone(),
                            max_message_length: *max_message_length,
                            subcondition: Box::new(sub),
                            fingerprint,
                            cost,
                        };
                        proof {
                            assert(derive_result_view(Ok::<Condition, ConditionError>(r))
                                =~= spec_derive_raw(f@));
                        }
                        Ok(r)
                    }
                },
            }
        },
        _ => Err(ConditionError::UnsupportedVariant),
    }
}

/// Derives the condition that `f` establishes: the deterministic, pure
/// mapping from a fulfillment to its public commitment.  Succeeds exactly on
/// derivable fulfillments; fails with `CostExceeded` when the computed cost
/// would exceed `MAX_COST` or the nesting depth exceeds
/// `MAX_NESTING_DEPTH`, and with `UnsupportedVariant` when a kind whose
/// algorithm is not implemented occurs.
pub fn derive_condition(f: &Fulfillment) -> (r: Result<Condition, ConditionError>)
    ensures
        derive_result_view(r) == spec_derive(f@),
        r is Ok <==> derivable(f@),
        r is Ok ==> supported_cond(r->Ok_0@),
        r is Ok ==> fingerprint_hex(r->Ok_0@),
{
    proof {
        crate::model::lemma_derive_characterization(f@);
    }
    derive_worker(f, MAX_NESTING_DEPTH)
}

impl Condition {
    /// Derives the condition that `f` establishes.  The fulfillment must be
    /// derivable; use `derive_condition` to obtain a typed error instead.
    pub fn from(f: &Fulfillment) -> (r: Condition)
        requires
            derivable(f@),
        ensures
            Ok::<ConditionModel, ConditionError>(r@) == spec_derive(f@),
            supported_cond(r@),
            fingerprint_hex(r@),
    {
        match derive_condition(f) {
            Ok(c) => c,
            Err(_) => vstd::pervasive::unreached(),
        }
    }
}

impl Fulfillment {
    /// Whether this fulfillment satisfies `c`: re-derives the condition and
    /// compares it structurally against `c`.  A fulfillment of one kind
    /// presented against a condition of another kind never verifies, and a
    /// fulfillment that derives no condition satisfies none.
    pub fn verify(&self, c: &Condition) -> (r: bool)
        ensures
            r == spec_verify(self@, c@),
    {
        match derive_condition(self) {
            Err(_) => false,
            Ok(derived) => supported_eq(&derived, c),
        }
    }
}

} // verus!
