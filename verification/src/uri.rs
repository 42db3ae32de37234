//! The canonical URI rendering of conditions:
//! `ni:///sha-256;<fingerprint>?fpt=<type-name>&cost=<cost>`, with an
//! `&subtypes=` list of the immediate subconditions' type names appended for
//! compound kinds.

use vstd::prelude::*;
use vstd::string::StringExecFns;

use crate::engine::Condition;
use crate::model::ConditionModel;
use crate::model::cond_cost;
use crate::model::cond_fingerprint;
use crate::model::fingerprint_hex;
use crate::text::ascii_bytes;
use crate::text::ascii_to_string;
use crate::text::chars_of_bytes;
use crate::text::dec_digits;
use crate::text::lemma_dec_digits_ascii;
use crate::text::push_bytes;
use crate::text::push_decimal;

verus! {

/// The canonical type name of a condition's kind.
pub open spec fn type_name_chars(c: ConditionModel) -> Seq<char> {
    match c {
        ConditionModel::Preimage { .. } => "preimage-sha-256"@,
        ConditionModel::Prefix { .. } => "prefix-sha-256"@,
        ConditionModel::Threshold { .. } => "threshold-sha-256"@,
        ConditionModel::Rsa { .. } => "rsa-sha-256"@,
        ConditionModel::Ed25519 { .. } => "ed25519-sha-256"@,
    }
}

/// Whether a condition is compound: its satisfaction depends on one or more
/// subconditions.
pub open spec fn spec_is_compound(c: ConditionModel) -> bool {
    c is Prefix || c is Threshold
}

/// The comma-joined type names of a sequence of conditions, in order.
pub open spec fn joined_type_names(s: Seq<Condition>) -> Seq<char>
    decreases s.len(),
{
    if s.len() == 0 {
        Seq::empty()
    } else if s.len() == 1 {
        type_name_chars(s[0]@)
    } else {
        joined_type_names(s.drop_last()) + ","@ + type_name_chars(s.last()@)
    }
}

/// The ordered type names of a condition's immediate subconditions, joined
/// by commas: the single subcondition's name for a prefix condition, the
/// whole list for a threshold condition, empty for simple kinds.
pub open spec fn subtypes_chars(c: ConditionModel) -> Seq<char> {
    match c {
        ConditionModel::Prefix { subcondition, .. } => type_name_chars(*subcondition),
        ConditionModel::Threshold { subconditions, .. } => joined_type_names(subconditions),
        _ => Seq::empty(),
    }
}

/// The canonical URI assembled from its parts.
pub open spec fn uri_chars(
    fingerprint: Seq<u8>,
    kind_name: Seq<char>,
    cost: nat,
    subtypes: Option<Seq<char>>,
) -> Seq<char> {
    "ni:///sha-256;"@ + chars_of_bytes(fingerprint) + "?fpt="@ + kind_name + "&cost="@
        + chars_of_bytes(dec_digits(cost)) + (match subtypes {
        Some(st) => "&subtypes="@ + st,
        None => Seq::empty(),
    })
}

/// The canonical URI of a condition.  Placeholder kinds, whose derivation is
/// not implemented, render with an empty fingerprint.
pub open spec fn spec_serialize_uri(c: ConditionModel) -> Seq<char> {
    uri_chars(
        cond_fingerprint(c),
        type_name_chars(c),
        cond_cost(c),
        if spec_is_compound(c) {
            Some(subtypes_chars(c))
        } else {
            None
        },
    )
}

/// Assembles the canonical URI from its rendered parts.
pub(crate) fn render_uri(
    fingerprint: &Vec<u8>,
    kind_name: &str,
    cost: usize,
    subtypes: Option<&str>,
) -> (r: String)
    requires
        ascii_bytes(fingerprint@),
    ensures
        r@ == uri_chars(
            fingerprint@,
            kind_name@,
            cost as nat,
            match subtypes {
                Some(st) => Some(st@),
                None => None,
            },
        ),
{
    let mut s = String::new();
    s.append("ni:///sha-256;");
    let fp = ascii_to_string(fingerprint.clone());
    s.append(fp.as_str());
    s.append("?fpt=");
    s.append(kind_name);
    s.append("&cost=");
    let mut digits: Vec<u8> = Vec::new();
    push_decimal(&mut digits, cost);
    proof {
        lemma_dec_digits_ascii(cost as nat);
    }
    let cost_str = ascii_to_string(digits);
    s.append(cost_str.as_str());
    match subtypes {
        Some(st) => {
            s.append("&subtypes=");
            s.append(st);
        },
        None => {},
    }
    s
}

impl Condition {
    /// The canonical type name of this condition's kind.
    pub fn get_type_name(&self) -> (r: String)
        ensures
            r@ == type_name_chars(self@),
    {
        match self {
            Condition::Preimage { .. } => String::from_str("preimage-sha-256"),
            Condition::Prefix { .. } => String::from_str("prefix-sha-256"),
            Condition::Threshold { .. } => String::from_str("threshold-sha-256"),
            Condition::Rsa { .. } => String::from_str("rsa-sha-256"),
            Condition::Ed25519 { .. } => String::from_str("ed25519-sha-256"),
        }
    }

    /// Whether this condition is compound.
    pub fn is_compound(&self) -> (r: bool)
        ensures
            r == spec_is_compound(self@),
    {
        match self {
            Condition::Prefix { .. } => true,
            Condition::Threshold { .. } => true,
            _ => false,
        }
    }

    /// The ordered type names of this condition's immediate subconditions;
    /// empty for simple kinds.
    pub fn get_subtypes(&self) -> (r: Vec<String>)
        ensures
            joined_vec(r@) == subtypes_chars(self@),
            self@ is Prefix ==> r@.len() == 1,
            self@ is Threshold ==> r@.len() == self@->Threshold_subconditions.len(),
            self@ is Threshold ==> forall|j: int|
                0 <= j < r@.len() ==> #[trigger] r@[j]@ == type_name_chars(
                    self@->Threshold_subconditions[j]@,
                ),
            !spec_is_compound(self@) ==> r@.len() == 0,
    {
        match self {
            Condition::Prefix { subcondition, .. } => {
                let mut names: Vec<String> = Vec::new();
                names.push(subcondition.get_type_name());
                proof {
                    assert(joined_vec(names@) =~= subtypes_chars(self@));
                }
                names
            },
            Condition::Threshold { subconditions, .. } => {
                let mut names: Vec<String> = Vec::new();
                let mut i: usize = 0;
                while i < subconditions.len()
                    invariant
                        i <= subconditions@.len(),
                        names@.len() == i,
                        forall|j: int|
                            0 <= j < i ==> #[trigger] names@[j]@ == type_name_chars(
                                subconditions@[j]@,
                            ),
                    decreases subconditions@.len() - i,
                {
                    names.push(subconditions[i].get_type_name());
                    i = i + 1;
                }
                proof {
                    lemma_joined_vec_names(names@, subconditions@);
                }
                names
            },
            _ => {
                let names: Vec<String> = Vec::new();
                proof {
                    assert(joined_vec(names@) =~= subtypes_chars(self@));
                }
                names
            },
        }
    }

    /// Renders this condition as its canonical URI.  The fingerprint must be
    /// hex-encoded, as every fingerprint the engine derives is; rendering
    /// never fails on such a condition.
    pub fn serialize_uri(&self) -> (r: String)
        requires
            fingerprint_hex(self@),
        ensures
            r@ == spec_serialize_uri(self@),
    {
        let mut fp: Vec<u8> = Vec::new();
        match self {
            Condition::Preimage { fingerprint, .. } => push_bytes(&mut fp, fingerprint),
            Condition::Prefix { fingerprint, .. } => push_bytes(&mut fp, fingerprint),
            _ => {},
        }
        proof {
            assert(fp@ =~= cond_fingerprint(self@));
            assert forall|i: int| 0 <= i < fp@.len() implies fp@[i] < 128 by {
                assert(crate::hashing::is_hex_digit_byte(cond_fingerprint(self@)[i]));
            }
        }
        let name = self.get_type_name();
        let cost = self.get_cost();
        match self {
            Condition::Prefix { subcondition, .. } => {
                let sub_name = subcondition.get_type_name();
                render_uri(&fp, name.as_str(), cost, Some(sub_name.as_str()))
            },
            Condition::Threshold { subconditions, .. } => {
                let joined = join_type_names(subconditions);
                render_uri(&fp, name.as_str(), cost, Some(joined.as_str()))
            },
            _ => render_uri(&fp, name.as_str(), cost, None),
        }
    }
}

/// The comma-joined concatenation of already-rendered names.
pub open spec fn joined_vec(names: Seq<String>) -> Seq<char>
    decreases names.len(),
{
    if names.len() == 0 {
        Seq::empty()
    } else if names.len() == 1 {
        names[0]@
    } else {
        joined_vec(names.drop_last()) + ","@ + names.last()@
    }
}

/// Rendering each condition's type name and joining preserves the joined
/// sequence of names.
proof fn lemma_joined_vec_names(names: Seq<String>, conds: Seq<Condition>)
    requires
        names.len() == conds.len(),
        forall|j: int| 0 <= j < names.len() ==> #[trigger] names[j]@ == type_name_chars(conds[j]@),
    ensures
        joined_vec(names) == joined_type_names(conds),
    decreases names.len(),
{
    if names.len() > 1 {
        lemma_joined_vec_names(names.drop_last(), conds.drop_last());
        assert(joined_vec(names) =~= joined_type_names(conds));
    } else if names.len() == 1 {
        assert(joined_vec(names) =~= joined_type_names(conds));
    } else {
        assert(joined_vec(names) =~= joined_type_names(conds));
    }
}

/// Joins the type names of `conds` with commas.
fn join_type_names(conds: &Vec<Condition>) -> (r: String)
    ensures
        r@ == joined_type_names(conds@),
{
    let mut s = String::new();
    let mut i: usize = 0;
    while i < conds.len()
        invariant
            i <= conds@.len(),
            s@ == joined_type_names(conds@.take(i as int)),
        decreases conds@.len() - i,
    {
        if i > 0 {
            s.append(",");
        }
        let name = conds[i].get_type_name();
        s.append(name.as_str());
        proof {
            let t = conds@.take(i as int + 1);
            assert(t.drop_last() =~= conds@.take(i as int));
            assert(t.last() == conds@[i as int]);
            if i == 0 {
                assert(s@ =~= joined_type_names(t));
            } else {
                assert(s@ =~= joined_type_names(t));
            }
        }
        i = i + 1;
    }
    proof {
        assert(conds@.take(conds@.len() as int) =~= conds@);
    }
    s
}

} // verus!
