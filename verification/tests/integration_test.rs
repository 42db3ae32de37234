use crypto_conditions::Condition;
use crypto_conditions::ConditionError;
use crypto_conditions::Fulfillment;
use crypto_conditions::MAX_COST;
use crypto_conditions::derive_condition;

#[test]
fn preimage_condition_verifies() {
    let f = Fulfillment::Preimage { preimage: b"test".to_vec() };

    let c = Condition::from(&f);

    assert!(f.verify(&c));
}

#[test]
fn derivation_is_deterministic() {
    let f = Fulfillment::Prefix {
        prefix: b"pre".to_vec(),
        max_message_length: 100,
        subfulfillment: Box::new(Fulfillment::Preimage { preimage: b"test".to_vec() }),
    };
    let once = derive_condition(&f).unwrap();
    let twice = derive_condition(&f).unwrap();
    assert_eq!(once, twice);
}

#[test]
fn derived_preimage_condition_is_exact() {
    let f = Fulfillment::Preimage { preimage: b"test".to_vec() };
    let c = derive_condition(&f).unwrap();
    match &c {
        Condition::Preimage { fingerprint, cost } => {
            assert_eq!(
                fingerprint,
                &b"9f86d081884c7d659a2feaa0c55ad015a3bf4f1b2b0b822cd15d6c15b0f00a08".to_vec()
            );
            assert_eq!(*cost, 4);
        },
        _ => panic!("derived condition has the wrong kind"),
    }
    assert_eq!(
        c.serialize_uri(),
        "ni:///sha-256;9f86d081884c7d659a2feaa0c55ad015a3bf4f1b2b0b822cd15d6c15b0f00a08?fpt=preimage-sha-256&cost=4"
    );
}

#[test]
fn prefix_condition_verifies_and_costs() {
    let f = Fulfillment::Prefix {
        prefix: b"pre".to_vec(),
        max_message_length: 100,
        subfulfillment: Box::new(Fulfillment::Preimage { preimage: b"test".to_vec() }),
    };
    let c = derive_condition(&f).unwrap();
    assert!(f.verify(&c));
    assert_eq!(c.get_cost(), 1131);
    let sub = Fulfillment::Preimage { preimage: b"test".to_vec() };
    let sub_c = derive_condition(&sub).unwrap();
    assert!(c.get_cost() > sub_c.get_cost());
}

#[test]
fn kind_separation_rejects_other_kinds() {
    let preimage = Fulfillment::Preimage { preimage: b"test".to_vec() };
    let prefix = Fulfillment::Prefix {
        prefix: b"pre".to_vec(),
        max_message_length: 100,
        subfulfillment: Box::new(Fulfillment::Preimage { preimage: b"test".to_vec() }),
    };
    let preimage_c = derive_condition(&preimage).unwrap();
    let prefix_c = derive_condition(&prefix).unwrap();
    assert!(!preimage.verify(&prefix_c));
    assert!(!prefix.verify(&preimage_c));
    let rsa_c = Condition::Rsa { modulus: b"mm".to_vec(), cost: 9 };
    assert!(!preimage.verify(&rsa_c));
}

#[test]
fn unsupported_variants_fail_explicitly() {
    let rsa = Fulfillment::Rsa { modulus: b"mm".to_vec(), signature: b"ss".to_vec() };
    assert_eq!(derive_condition(&rsa).unwrap_err(), ConditionError::UnsupportedVariant);
    let ed = Fulfillment::Ed25519 { public_key: b"pk".to_vec(), signature: b"ss".to_vec() };
    assert_eq!(derive_condition(&ed).unwrap_err(), ConditionError::UnsupportedVariant);
    let threshold = Fulfillment::Threshold { subfulfillments: vec![], subconditions: vec![] };
    assert_eq!(derive_condition(&threshold).unwrap_err(), ConditionError::UnsupportedVariant);
    let wrapped = Fulfillment::Prefix {
        prefix: b"pre".to_vec(),
        max_message_length: 100,
        subfulfillment: Box::new(Fulfillment::Rsa {
            modulus: b"mm".to_vec(),
            signature: b"ss".to_vec(),
        }),
    };
    assert_eq!(derive_condition(&wrapped).unwrap_err(), ConditionError::UnsupportedVariant);
    let rsa_again = Fulfillment::Rsa { modulus: b"mm".to_vec(), signature: b"ss".to_vec() };
    let c = Condition::Preimage { fingerprint: b"ab".to_vec(), cost: 4 };
    assert!(!rsa_again.verify(&c));
}

#[test]
fn cost_ceiling_is_enforced() {
    let at_limit = Fulfillment::Preimage { preimage: vec![0u8; MAX_COST] };
    let c = derive_condition(&at_limit).unwrap();
    assert_eq!(c.get_cost(), MAX_COST);

    let over_limit = Fulfillment::Preimage { preimage: vec![0u8; MAX_COST + 1] };
    assert_eq!(derive_condition(&over_limit).unwrap_err(), ConditionError::CostExceeded);

    let long_message = Fulfillment::Prefix {
        prefix: b"pre".to_vec(),
        max_message_length: MAX_COST,
        subfulfillment: Box::new(Fulfillment::Preimage { preimage: b"test".to_vec() }),
    };
    assert_eq!(derive_condition(&long_message).unwrap_err(), ConditionError::CostExceeded);
}

#[test]
fn deep_nesting_is_rejected() {
    let mut f = Fulfillment::Preimage { preimage: vec![] };
    for _ in 0..3000 {
        f = Fulfillment::Prefix {
            prefix: vec![],
            max_message_length: 0,
            subfulfillment: Box::new(f),
        };
    }
    assert_eq!(derive_condition(&f).unwrap_err(), ConditionError::CostExceeded);
}
