//! Typed per-kind fulfillment values for the implemented kinds, with their
//! derivation into the matching typed conditions.

use vstd::prelude::*;

use crate::condition::PrefixSha256Condition;
use crate::condition::PreimageSha256Condition;
use crate::hashing::sha256_hex_digest;
use crate::model::ConditionError;
use crate::model::ConditionModel;
use crate::model::FulfillmentModel;
use crate::model::MAX_COST;
use crate::model::PREFIX_COST_OVERHEAD;
use crate::model::derivable;
use crate::model::fingerprint_hex;
use crate::model::prefix_depth;
use crate::model::prefix_fingerprint_input;
use crate::model::raw_cost;
use crate::model::spec_derive;
use crate::model::spec_verify;
use crate::model::supported;
use crate::model::within_budget;
use crate::text::bytes_eq;
use crate::text::push_bytes;
use crate::text::push_u64_be;

verus! {

/// A preimage fulfillment: the secret preimage itself.
#[derive(Debug, PartialEq, Eq, Hash, Clone)]
pub struct PreimageSha256Fulfillment {
    pub preimage: Vec<u8>,
}

impl View for PreimageSha256Fulfillment {
    type V = FulfillmentModel;

    open spec fn view(&self) -> FulfillmentModel {
        FulfillmentModel::Preimage { preimage: self.preimage@ }
    }
}

/// A prefix fulfillment: a prefix, a maximum message length, and the
/// preimage subfulfillment it wraps.
#[derive(Debug, PartialEq, Eq, Hash, Clone)]
pub struct PrefixSha256Fulfillment {
    pub prefix: Vec<u8>,
    pub max_message_length: usize,
    pub subfulfillment: Box<PreimageSha256Fulfillment>,
}

impl View for PrefixSha256Fulfillment {
    type V = FulfillmentModel;

    open spec fn view(&self) -> FulfillmentModel {
        FulfillmentModel::Prefix {
            prefix: self.prefix@,
            max_message_length: self.max_message_length as nat,
            subfulfillment: Box::new(self.subfulfillment@),
        }
    }
}

impl PreimageSha256Fulfillment {
    /// Derives the condition this fulfillment establishes: the SHA-256
    /// fingerprint of the preimage, at a cost of the preimage's length.
    /// The fulfillment must be derivable: the preimage no longer than
    /// `MAX_COST`.
    pub fn get_condition(&self) -> (r: PreimageSha256Condition)
        requires
            derivable(self@),
        ensures
            Ok::<ConditionModel, ConditionError>(r@) == spec_derive(self@),
            fingerprint_hex(r@),
    {
        let fingerprint = sha256_hex_digest(self.preimage.as_slice());
        let r = PreimageSha256Condition { fingerprint, cost: self.preimage.len() };
        proof {
            assert(Ok::<ConditionModel, ConditionError>(r@) =~= spec_derive(self@));
        }
        r
    }

    /// Whether this fulfillment satisfies `condition`: re-derives and
    /// compares structurally.
    pub fn verify(&self, condition: &PreimageSha256Condition) -> (r: bool)
        ensures
            r == spec_verify(self@, condition@),
    {
        if self.preimage.len() > MAX_COST {
            return false;
        }
        let derived = self.get_condition();
        if !bytes_eq(&derived.fingerprint, &condition.fingerprint) {
            return false;
        }
        if derived.cost != condition.cost {
            return false;
        }
        proof {
            assert(derived@ =~= condition@);
        }
        true
    }
}

impl PreimageSha256Condition {
    /// Derives the condition established by `f`; the fulfillment must be
    /// derivable.
    pub fn from(f: &PreimageSha256Fulfillment) -> (r: PreimageSha256Condition)
        requires
            derivable(f@),
        ensures
            Ok::<ConditionModel, ConditionError>(r@) == spec_derive(f@),
            fingerprint_hex(r@),
    {
        f.get_condition()
    }
}

impl PrefixSha256Fulfillment {
    /// Derives the condition this fulfillment establishes: the subcondition
    /// is derived first; the cost is the prefix length plus the maximum
    /// message length plus the subcondition's cost plus the fixed overhead;
    /// the fingerprint hashes the canonical encoding of the prefix, the
    /// maximum message length and the subcondition's fingerprint.  The
    /// fulfillment must be derivable: every computed cost within
    /// `MAX_COST`.
    pub fn get_condition(&self) -> (r: PrefixSha256Condition)
        requires
            derivable(self@),
        ensures
            Ok::<ConditionModel, ConditionError>(r@) == spec_derive(self@),
            fingerprint_hex(r@),
    {
        proof {
            crate::model::lemma_derive_characterization(self.subfulfillment@);
        }
        let subcondition = self.subfulfillment.get_condition();
        let cost = self.prefix.len() + self.max_message_length + subcondition.cost
            + PREFIX_COST_OVERHEAD;
        let mut input: Vec<u8> = Vec::new();
        push_bytes(&mut input, &self.prefix);
        push_u64_be(&mut input, self.max_message_length as u64);
        push_bytes(&mut input, &subcondition.fingerprint);
        proof {
            assert(input@ =~= prefix_fingerprint_input(
                self.prefix@,
                self.max_message_length as nat,
                subcondition.fingerprint@,
            ));
        }
        let fingerprint = sha256_hex_digest(input.as_slice());
        let r = PrefixSha256Condition {
            prefix: self.prefix.clone(),
            max_message_length: self.max_message_length,
            subcondition: Box::new(subcondition),
            fingerprint,
            cost,
        };
        proof {
            assert(Ok::<ConditionModel, ConditionError>(r@) =~= spec_derive(self@));
        }
        r
    }

    /// Whether this fulfillment satisfies `condition`: re-derives and
    /// compares structurally.
    pub fn verify(&self, condition: &PrefixSha256Condition) -> (r: bool)
        ensures
            r == spec_verify(self@, condition@),
    {
        proof {
            crate::model::lemma_derive_characterization(self@);
            assert(raw_cost(self.subfulfillment@) == self.subfulfillment.preimage@.len());
            assert(raw_cost(self@) == self.prefix@.len() + self.max_message_length as nat
                + self.subfulfillment.preimage@.len() + PREFIX_COST_OVERHEAD as nat);
            assert(supported(self.subfulfillment@));
            assert(prefix_depth(self.subfulfillment@) == 0);
            assert(prefix_depth(self@) == 1);
        }
        if self.subfulfillment.preimage.len() > MAX_COST {
            proof {
                assert(!within_budget(self@));
            }
            return false;
        }
        if self.prefix.len() > MAX_COST || self.max_message_length > MAX_COST {
            proof {
                assert(!within_budget(self@));
            }
            return false;
        }
        let sub_cost = self.subfulfillment.preimage.len();
        let cost = self.prefix.len() + self.max_message_length + sub_cost
            + PREFIX_COST_OVERHEAD;
        if cost > MAX_COST {
            proof {
                assert(!within_budget(self@));
            }
            return false;
        }
        proof {
            assert(within_budget(self.subfulfillment@));
            assert(within_budget(self@));
            assert(derivable(self@));
        }
        let derived = self.get_condition();
        if !bytes_eq(&derived.prefix, &condition.prefix) {
            return false;
        }
        if derived.max_message_length != condition.max_message_length {
            return false;
        }
        if !bytes_eq(&derived.fingerprint, &condition.fingerprint) {
            return false;
        }
        if derived.cost != condition.cost {
            return false;
        }
        if !bytes_eq(&derived.subcondition.fingerprint, &condition.subcondition.fingerprint) {
            return false;
        }
        if derived.subcondition.cost != condition.subcondition.cost {
            return false;
        }
        proof {
            assert(derived.subcondition@ =~= condition.subcondition@);
            assert(derived@ =~= condition@);
        }
        true
    }
}

impl PrefixSha256Condition {
    /// Derives the condition established by `f`; the fulfillment must be
    /// derivable.
    pub fn from(f: &PrefixSha256Fulfillment) -> (r: PrefixSha256Condition)
        requires
            derivable(f@),
        ensures
            Ok::<ConditionModel, ConditionError>(r@) == spec_derive(f@),
            fingerprint_hex(r@),
    {
        f.get_condition()
    }
}

} // verus!
