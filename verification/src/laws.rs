//! The laws the engine obeys, stated and proved over the model.  Together
//! with `derive_condition`'s own contract — which pins its result to
//! `spec_derive` of its argument's value — these carry the guarantees over
//! to the executable functions.

use vstd::prelude::*;

use crate::model::ConditionError;
use crate::model::ConditionModel;
use crate::model::FulfillmentModel;
use crate::model::MAX_COST;
use crate::model::cond_cost;
use crate::model::cond_kind;
use crate::model::derivable;
use crate::model::ful_kind;
use crate::model::lemma_derive_characterization;
use crate::model::prefix_depth;
use crate::model::raw_cost;
use crate::model::spec_derive;
use crate::model::spec_verify;
use crate::model::supported;
use crate::model::within_budget;

verus! {

/// Determinism: derivation is a pure function of the fulfillment's value,
/// so deriving twice — or from two equal fulfillments — yields equal
/// conditions.
pub proof fn lemma_derivation_deterministic(f1: FulfillmentModel, f2: FulfillmentModel)
    requires
        f1 == f2,
    ensures
        spec_derive(f1) == spec_derive(f2),
{
}

/// Soundness: a derivable fulfillment always verifies against the very
/// condition it derives.
pub proof fn lemma_derived_condition_verifies(f: FulfillmentModel)
    requires
        derivable(f),
    ensures
        spec_derive(f) is Ok,
        spec_verify(f, spec_derive(f)->Ok_0),
{
    lemma_derive_characterization(f);
}

/// Kind separation: a fulfillment of one kind never verifies against a
/// condition of another kind.
pub proof fn lemma_kind_separation(f: FulfillmentModel, c: ConditionModel)
    requires
        ful_kind(f) != cond_kind(c),
    ensures
        !spec_verify(f, c),
{
    lemma_derive_characterization(f);
}

/// Cost monotonicity: the condition derived from a prefix fulfillment costs
/// strictly more than the condition derived from its subfulfillment.
pub proof fn lemma_prefix_cost_monotonic(
    prefix: Seq<u8>,
    max_message_length: nat,
    subfulfillment: FulfillmentModel,
)
    requires
        derivable(
            (FulfillmentModel::Prefix {
                prefix,
                max_message_length,
                subfulfillment: Box::new(subfulfillment),
            }),
        ),
    ensures
        ({
            let f = FulfillmentModel::Prefix {
                prefix,
                max_message_length,
                subfulfillment: Box::new(subfulfillment),
            };
            &&& derivable(subfulfillment)
            &&& cond_cost(spec_derive(f)->Ok_0) > cond_cost(spec_derive(subfulfillment)->Ok_0)
        }),
{
    let f = FulfillmentModel::Prefix {
        prefix,
        max_message_length,
        subfulfillment: Box::new(subfulfillment),
    };
    lemma_derive_characterization(f);
    lemma_derive_characterization(subfulfillment);
    assert(supported(subfulfillment));
    assert(within_budget(subfulfillment));
    assert(prefix_depth(subfulfillment) < prefix_depth(f));
}

/// Every prefix combinator contributes at least its fixed overhead to the
/// computed cost.
pub proof fn lemma_depth_bounds_cost(f: FulfillmentModel)
    requires
        supported(f),
    ensures
        raw_cost(f) >= prefix_depth(f) * crate::model::PREFIX_COST_OVERHEAD as nat,
    decreases f,
{
    match f {
        FulfillmentModel::Prefix { subfulfillment, .. } => {
            lemma_depth_bounds_cost(*subfulfillment);
        },
        _ => {},
    }
}

/// The depth guard loses nothing: a supported fulfillment nested beyond
/// `MAX_NESTING_DEPTH` could never stay within the cost ceiling, so
/// rejecting it outright with `CostExceeded` agrees with the cost rule.
pub proof fn lemma_deep_nesting_exceeds_budget(f: FulfillmentModel)
    requires
        supported(f),
        prefix_depth(f) > crate::model::MAX_NESTING_DEPTH as nat,
    ensures
        raw_cost(f) > MAX_COST as nat,
{
    lemma_depth_bounds_cost(f);
    assert(prefix_depth(f) * crate::model::PREFIX_COST_OVERHEAD as nat >= (
    crate::model::MAX_NESTING_DEPTH as nat + 1) * crate::model::PREFIX_COST_OVERHEAD as nat)
        by (nonlinear_arith)
        requires
            prefix_depth(f) > crate::model::MAX_NESTING_DEPTH as nat,
    ;
}

/// Cost ceiling: derivation never yields a condition whose cost exceeds
/// `MAX_COST`, and whenever the computed cost of a supported fulfillment
/// would exceed the ceiling, derivation fails with `CostExceeded`.
pub proof fn lemma_cost_ceiling(f: FulfillmentModel)
    ensures
        spec_derive(f) is Ok ==> cond_cost(spec_derive(f)->Ok_0) <= MAX_COST as nat,
        supported(f) && raw_cost(f) > MAX_COST as nat ==> spec_derive(f) == Err::<
            ConditionModel,
            ConditionError,
        >(ConditionError::CostExceeded),
{
    lemma_derive_characterization(f);
    if supported(f) && raw_cost(f) > MAX_COST as nat {
        match f {
            FulfillmentModel::Preimage { .. } => {
                assert(!within_budget(f));
            },
            FulfillmentModel::Prefix { .. } => {
                assert(!within_budget(f));
            },
            _ => {
                assert(raw_cost(f) == 0);
            },
        }
        if prefix_depth(f) > crate::model::MAX_NESTING_DEPTH as nat {
            assert(spec_derive(f) == Err::<ConditionModel, ConditionError>(
                ConditionError::CostExceeded,
            ));
        } else {
            crate::model::lemma_derive_raw_characterization(f);
            assert(spec_derive(f) == crate::model::spec_derive_raw(f));
        }
    }
}

} // verus!
