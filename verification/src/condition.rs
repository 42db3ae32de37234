//! Typed per-kind condition values: one concrete type per implemented kind,
//! sharing the crate-wide condition model, plus the placeholder shapes of
//! the kinds whose algorithms are extension points.

use vstd::prelude::*;
use vstd::string::StringExecFns;

use crate::engine::Condition;
use crate::model::ConditionModel;
use crate::model::cond_cost;
use crate::text::ascii_bytes;
use crate::text::ascii_to_string;
use crate::text::chars_of_bytes;
use crate::uri::render_uri;
use crate::uri::spec_is_compound;
use crate::uri::spec_serialize_uri;
use crate::uri::type_name_chars;

verus! {

/// A preimage condition: the commitment to the SHA-256 digest of a secret
/// preimage, together with the cost of verifying it.
#[derive(Debug, PartialEq, Eq, Hash, Clone)]
pub struct PreimageSha256Condition {
    pub fingerprint: Vec<u8>,
    pub cost: usize,
}

impl View for PreimageSha256Condition {
    type V = ConditionModel;

    open spec fn view(&self) -> ConditionModel {
        ConditionModel::Preimage { fingerprint: self.fingerprint@, cost: self.cost as nat }
    }
}

impl PreimageSha256Condition {
    /// The canonical type name of this kind.
    pub fn get_type_name(&self) -> (r: String)
        ensures
            r@ == type_name_chars(self@),
    {
        String::from_str("preimage-sha-256")
    }

    /// A preimage condition is simple, not compound.
    pub fn is_compound(&self) -> (r: bool)
        ensures
            r == spec_is_compound(self@),
    {
        false
    }

    /// The cost bound this condition commits to.
    pub fn get_cost(&self) -> (r: usize)
        ensures
            r as nat == cond_cost(self@),
    {
        self.cost
    }

    /// The hex-encoded fingerprint as text.  The fingerprint must be ASCII,
    /// as every fingerprint the engine derives is.
    pub fn get_fingerprint(&self) -> (r: String)
        requires
            ascii_bytes(self.fingerprint@),
        ensures
            r@ == chars_of_bytes(self.fingerprint@),
    {
        ascii_to_string(self.fingerprint.clone())
    }

    /// Renders this condition as its canonical URI.
    pub fn serialize_uri(&self) -> (r: String)
        requires
            ascii_bytes(self.fingerprint@),
        ensures
            r@ == spec_serialize_uri(self@),
    {
        render_uri(&self.fingerprint, "preimage-sha-256", self.cost, None)
    }
}

/// A prefix condition: the commitment that a preimage condition must be
/// satisfied for messages carrying a fixed prefix, up to a maximum message
/// length.
#[derive(Debug, PartialEq, Eq, Hash, Clone)]
pub struct PrefixSha256Condition {
    pub prefix: Vec<u8>,
    pub max_message_length: usize,
    pub subcondition: Box<PreimageSha256Condition>,
    pub fingerprint: Vec<u8>,
    pub cost: usize,
}

impl View for PrefixSha256Condition {
    type V = ConditionModel;

    open spec fn view(&self) -> ConditionModel {
        ConditionModel::Prefix {
            prefix: self.prefix@,
            max_message_length: self.max_message_length as nat,
            subcondition: Box::new(self.subcondition@),
            fingerprint: self.fingerprint@,
            cost: self.cost as nat,
        }
    }
}

impl PrefixSha256Condition {
    /// The canonical type name of this kind.
    pub fn get_type_name(&self) -> (r: String)
        ensures
            r@ == type_name_chars(self@),
    {
        String::from_str("prefix-sha-256")
    }

    /// A prefix condition is compound: it depends on its subcondition.
    pub fn is_compound(&self) -> (r: bool)
        ensures
            r == spec_is_compound(self@),
    {
        true
    }

    /// The cost bound this condition commits to.
    pub fn get_cost(&self) -> (r: usize)
        ensures
            r as nat == cond_cost(self@),
    {
        self.cost
    }

    /// The hex-encoded fingerprint as text.  The fingerprint must be ASCII,
    /// as every fingerprint the engine derives is.
    pub fn get_fingerprint(&self) -> (r: String)
        requires
            ascii_bytes(self.fingerprint@),
        ensures
            r@ == chars_of_bytes(self.fingerprint@),
    {
        ascii_to_string(self.fingerprint.clone())
    }

    /// The type names of this condition's immediate subconditions: the one
    /// name of its preimage subcondition.
    pub fn get_subtypes(&self) -> (r: Vec<String>)
        ensures
            r@.len() == 1,
            r@[0]@ == type_name_chars(self.subcondition@),
    {
        let mut names: Vec<String> = Vec::new();
        names.push(self.subcondition.get_type_name());
        names
    }

    /// Renders this condition as its canonical URI, with the subcondition's
    /// type name as the subtypes list.
    pub fn serialize_uri(&self) -> (r: String)
        requires
            ascii_bytes(self.fingerprint@),
        ensures
            r@ == spec_serialize_uri(self@),
    {
        render_uri(&self.fingerprint, "prefix-sha-256", self.cost, Some("preimage-sha-256"))
    }
}

/// The shape of a threshold condition: an extension point; its derivation
/// algorithm is not implemented in this core.
#[derive(Debug)]
pub struct Threshold {
    pub threshold: usize,
    pub subconditions: Vec<Condition>,
    pub cost: usize,
}

/// The shape of an RSA condition: an extension point; its derivation
/// algorithm is not implemented in this core.
#[derive(Debug, PartialEq, Eq, Hash, Clone)]
pub struct Rsa {
    pub modulus: Vec<u8>,
    pub cost: usize,
}

/// The shape of an Ed25519 condition: an extension point; its derivation
/// algorithm is not implemented in this core.
#[derive(Debug, PartialEq, Eq, Hash, Clone)]
pub struct Ed25519 {
    pub public_key: Vec<u8>,
    pub cost: usize,
}

} // verus!
