use crypto_conditions::PrefixSha256Condition;
use crypto_conditions::PrefixSha256Fulfillment;
use crypto_conditions::PreimageSha256Condition;
use crypto_conditions::PreimageSha256Fulfillment;

const TEST_DIGEST: &[u8] = b"9f86d081884c7d659a2feaa0c55ad015a3bf4f1b2b0b822cd15d6c15b0f00a08";

#[test]
fn generate_condition() {
    let f1 = PreimageSha256Fulfillment { preimage: b"test".to_vec() };

    let f2 = PrefixSha256Fulfillment {
        prefix: b"pre".to_vec(),
        max_message_length: 100,
        subfulfillment: Box::new(f1.clone()),
    };

    let c1 = PreimageSha256Condition::from(&f1);
    let c2 = PrefixSha256Condition::from(&f2);

    println!("{:?}", c2);

    assert!(f2.verify(&c2));
    assert!(f1.verify(&c1));
}

#[test]
fn preimage_derivation_hashes_the_bytes() {
    let f = PreimageSha256Fulfillment { preimage: b"test".to_vec() };
    let c = f.get_condition();
    assert_eq!(c.fingerprint, TEST_DIGEST.to_vec());
    assert_eq!(c.cost, 4);
    assert!(f.verify(&c));
}

#[test]
fn different_preimage_does_not_verify() {
    let f = PreimageSha256Fulfillment { preimage: b"test".to_vec() };
    let other = PreimageSha256Fulfillment { preimage: b"TEST".to_vec() }.get_condition();
    assert!(!f.verify(&other));
}

#[test]
fn prefix_cost_is_computed() {
    let f = PrefixSha256Fulfillment {
        prefix: b"pre".to_vec(),
        max_message_length: 100,
        subfulfillment: Box::new(PreimageSha256Fulfillment { preimage: b"test".to_vec() }),
    };
    let c = f.get_condition();
    assert_eq!(c.cost, 3 + 100 + 4 + 1024);
    assert_eq!(c.cost, 1131);
    assert!(c.cost > c.subcondition.cost);
}

#[test]
fn preimage_uri_is_canonical() {
    let c = PreimageSha256Fulfillment { preimage: b"test".to_vec() }.get_condition();
    let mut expected = String::from("ni:///sha-256;");
    expected.push_str("9f86d081884c7d659a2feaa0c55ad015a3bf4f1b2b0b822cd15d6c15b0f00a08");
    expected.push_str("?fpt=preimage-sha-256&cost=4");
    assert_eq!(c.serialize_uri(), expected);
}

#[test]
fn prefix_uri_names_its_subtype() {
    let f = PrefixSha256Fulfillment {
        prefix: b"pre".to_vec(),
        max_message_length: 100,
        subfulfillment: Box::new(PreimageSha256Fulfillment { preimage: b"test".to_vec() }),
    };
    let uri = f.get_condition().serialize_uri();
    assert!(uri.starts_with("ni:///sha-256;"));
    assert!(uri.contains("?fpt=prefix-sha-256&cost=1131"));
    assert!(uri.ends_with("&subtypes=preimage-sha-256"));
}

#[test]
fn prefix_fingerprint_depends_on_parameters() {
    let base = PrefixSha256Fulfillment {
        prefix: b"pre".to_vec(),
        max_message_length: 100,
        subfulfillment: Box::new(PreimageSha256Fulfillment { preimage: b"test".to_vec() }),
    };
    let other_prefix = PrefixSha256Fulfillment { prefix: b"qre".to_vec(), ..base.clone() };
    let other_length = PrefixSha256Fulfillment { max_message_length: 101, ..base.clone() };
    let c = base.get_condition();
    assert_eq!(c.fingerprint.len(), 64);
    assert_ne!(c.fingerprint, c.subcondition.fingerprint);
    assert_ne!(c.fingerprint, other_prefix.get_condition().fingerprint);
    assert_ne!(c.fingerprint, other_length.get_condition().fingerprint);
    assert!(!base.verify(&other_prefix.get_condition()));
    assert!(!base.verify(&other_length.get_condition()));
}

#[test]
fn derivation_is_deterministic_for_structs() {
    let f = PrefixSha256Fulfillment {
        prefix: b"pre".to_vec(),
        max_message_length: 100,
        subfulfillment: Box::new(PreimageSha256Fulfillment { preimage: b"test".to_vec() }),
    };
    assert_eq!(f.get_condition(), f.get_condition());
}
