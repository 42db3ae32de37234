use crypto_conditions::Condition;
use crypto_conditions::PrefixSha256Condition;
use crypto_conditions::PreimageSha256Condition;

#[test]
fn serialize() {
    let f = vec![
        57, 102, 56, 54, 100, 48, 56, 49, 56, 56, 52, 99, 55, 100, 54, 53, 57, 97, 50, 102, 101,
        97, 97, 48, 99, 53, 53, 97, 100, 48, 49, 53, 97, 51, 98, 102, 52, 102, 49, 98, 50, 98, 48,
        98, 56, 50, 50, 99, 100, 49, 53, 100, 54, 99, 49, 53, 98, 48, 102, 48, 48, 97, 48, 56,
    ];
    let p = PreimageSha256Condition { fingerprint: f, cost: 100 };
    println!("{:?}", p.serialize_uri());
}

#[test]
fn preimage_condition_getters() {
    let p = PreimageSha256Condition { fingerprint: b"9f86".to_vec(), cost: 4 };
    assert_eq!(p.get_type_name(), "preimage-sha-256");
    assert!(!p.is_compound());
    assert_eq!(p.get_cost(), 4);
    assert_eq!(p.get_fingerprint(), "9f86");
    assert_eq!(p.serialize_uri(), "ni:///sha-256;9f86?fpt=preimage-sha-256&cost=4");
}

#[test]
fn prefix_condition_getters() {
    let p = PrefixSha256Condition {
        prefix: b"pre".to_vec(),
        max_message_length: 100,
        subcondition: Box::new(PreimageSha256Condition { fingerprint: b"ab".to_vec(), cost: 4 }),
        fingerprint: b"cd".to_vec(),
        cost: 1131,
    };
    assert_eq!(p.get_type_name(), "prefix-sha-256");
    assert!(p.is_compound());
    assert_eq!(p.get_cost(), 1131);
    assert_eq!(p.get_fingerprint(), "cd");
    let subtypes = p.get_subtypes();
    assert_eq!(subtypes.len(), 1);
    assert_eq!(subtypes[0], "preimage-sha-256");
    assert_eq!(
        p.serialize_uri(),
        "ni:///sha-256;cd?fpt=prefix-sha-256&cost=1131&subtypes=preimage-sha-256"
    );
}

#[test]
fn threshold_uri_lists_subtypes() {
    let c = Condition::Threshold {
        threshold: 2,
        subconditions: vec![
            Condition::Preimage { fingerprint: b"ab".to_vec(), cost: 4 },
            Condition::Rsa { modulus: b"mm".to_vec(), cost: 9 },
        ],
        cost: 7,
    };
    assert_eq!(c.get_type_name(), "threshold-sha-256");
    assert!(c.is_compound());
    let subtypes = c.get_subtypes();
    assert_eq!(subtypes, vec!["preimage-sha-256".to_string(), "rsa-sha-256".to_string()]);
    assert_eq!(
        c.serialize_uri(),
        "ni:///sha-256;?fpt=threshold-sha-256&cost=7&subtypes=preimage-sha-256,rsa-sha-256"
    );
}

#[test]
fn simple_kinds_have_no_subtypes() {
    let c = Condition::Ed25519 { public_key: b"pk".to_vec(), cost: 131072 };
    assert_eq!(c.get_type_name(), "ed25519-sha-256");
    assert!(!c.is_compound());
    assert_eq!(c.get_cost(), 131072);
    assert_eq!(c.get_subtypes().len(), 0);
    assert_eq!(c.serialize_uri(), "ni:///sha-256;?fpt=ed25519-sha-256&cost=131072");
}
