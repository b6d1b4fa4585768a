use voprf_group::{Group, InternalError, Mode, NistP256};

fn one_scalar() -> voprf_group::nist::P256Scalar {
    let mut b = vec![0u8; 32];
    b[31] = 1;
    NistP256::deserialize_scalar(&b).unwrap()
}

fn elem_err(r: Result<voprf_group::nist::P256Elem, InternalError>) -> InternalError {
    match r {
        Ok(_) => panic!("expected an error"),
        Err(e) => e,
    }
}

fn scalar_err(r: Result<voprf_group::nist::P256Scalar, InternalError>) -> InternalError {
    match r {
        Ok(_) => panic!("expected an error"),
        Err(e) => e,
    }
}

#[test]
fn p256_base_elem_round_trip() {
    let base = NistP256::base_elem();
    let ser = NistP256::serialize_elem(&base);
    assert_eq!(ser.len(), 33);
    assert_eq!(ser[0], 0x03);
    assert_eq!(ser[1], 0x6b);
    assert_eq!(ser[32], 0x96);
    let back = NistP256::deserialize_elem(&ser).unwrap();
    assert_eq!(NistP256::serialize_elem(&back), ser);
}

#[test]
fn p256_identity_elem_is_rejected() {
    let ident = NistP256::identity_elem();
    let ser = NistP256::serialize_elem(&ident);
    assert_eq!(ser, vec![0u8; 33]);
    assert_eq!(
        elem_err(NistP256::deserialize_elem(&ser)),
        InternalError::Deserialization
    );
}

#[test]
fn p256_zero_scalar_is_rejected() {
    let zero = NistP256::zero_scalar();
    let ser = NistP256::serialize_scalar(&zero);
    assert_eq!(ser, vec![0u8; 32]);
    assert_eq!(
        scalar_err(NistP256::deserialize_scalar(&ser)),
        InternalError::Deserialization
    );
}

#[test]
fn p256_scalar_canonical_boundary() {
    // The group order, big-endian: rejected (not reduced).
    let order_be: [u8; 32] = [
        0xff, 0xff, 0xff, 0xff, 0x00, 0x00, 0x00, 0x00, 0xff, 0xff, 0xff, 0xff, 0xff, 0xff,
        0xff, 0xff, 0xbc, 0xe6, 0xfa, 0xad, 0xa7, 0x17, 0x9e, 0x84, 0xf3, 0xb9, 0xca, 0xc2,
        0xfc, 0x63, 0x25, 0x51,
    ];
    assert_eq!(
        scalar_err(NistP256::deserialize_scalar(&order_be.to_vec())),
        InternalError::Deserialization
    );
    // The order minus one: accepted.
    let mut below = order_be.to_vec();
    below[31] = 0x50;
    let s = NistP256::deserialize_scalar(&below).unwrap();
    assert_eq!(NistP256::serialize_scalar(&s), below);
}

#[test]
fn p256_deserialize_elem_rejects_bad_input() {
    assert_eq!(
        elem_err(NistP256::deserialize_elem(&vec![2u8; 16])),
        InternalError::Deserialization
    );
    // A compressed tag with an x coordinate outside the base field.
    let mut bad = vec![0xffu8; 33];
    bad[0] = 0x02;
    assert_eq!(
        elem_err(NistP256::deserialize_elem(&bad)),
        InternalError::Deserialization
    );
}

#[test]
fn p256_hash_to_curve_is_deterministic() {
    let input = vec![b"some input".to_vec()];
    let e1 = NistP256::hash_to_curve(&input, Mode::Base, 3).unwrap();
    let e2 = NistP256::hash_to_curve(&input, Mode::Base, 3).unwrap();
    assert_eq!(NistP256::serialize_elem(&e1), NistP256::serialize_elem(&e2));
    let e3 = NistP256::hash_to_curve(&input, Mode::Verifiable, 3).unwrap();
    assert_ne!(NistP256::serialize_elem(&e1), NistP256::serialize_elem(&e3));
    let ser = NistP256::serialize_elem(&e1);
    let back = NistP256::deserialize_elem(&ser).unwrap();
    assert_eq!(NistP256::serialize_elem(&back), ser);
}

#[test]
fn p256_hash_to_scalar_and_domain_separation() {
    let input = vec![b"some input".to_vec()];
    let s1 = NistP256::hash_to_scalar(&input, Mode::Base, 3).unwrap();
    let s2 = NistP256::hash_to_scalar(&input, Mode::Base, 3).unwrap();
    assert!(s1.ct_eq_scalar(&s2));
    let sa = NistP256::hash_to_scalar_with_dst(&input, &b"tag-A".to_vec()).unwrap();
    let sb = NistP256::hash_to_scalar_with_dst(&input, &b"tag-B".to_vec()).unwrap();
    assert!(!sa.ct_eq_scalar(&sb));
    assert_eq!(
        scalar_err(NistP256::hash_to_scalar_with_dst(&input, &Vec::new())),
        InternalError::Input
    );
}

#[test]
fn p256_input_bounds() {
    let empty: Vec<Vec<u8>> = Vec::new();
    assert_eq!(
        elem_err(NistP256::hash_to_curve(&empty, Mode::Base, 3)),
        InternalError::Input
    );
    assert_eq!(
        scalar_err(NistP256::hash_to_scalar(&empty, Mode::Base, 3)),
        InternalError::Input
    );
    let too_long = vec![vec![7u8; 65536]];
    assert_eq!(
        elem_err(NistP256::hash_to_curve(&too_long, Mode::Base, 3)),
        InternalError::Input
    );
    let longest = vec![vec![7u8; 65535]];
    assert!(NistP256::hash_to_curve(&longest, Mode::Base, 3).is_ok());
    assert!(NistP256::hash_to_scalar(&longest, Mode::Base, 3).is_ok());
}

#[test]
fn p256_invert_twice_returns_the_scalar() {
    let input = vec![b"invert me".to_vec()];
    let s = NistP256::hash_to_scalar(&input, Mode::Base, 3).unwrap();
    assert!(!NistP256::is_zero_scalar(&s));
    let inv = NistP256::invert_scalar(&s);
    let back = NistP256::invert_scalar(&inv);
    assert!(back.ct_eq_scalar(&s));
    let one = one_scalar();
    assert!(NistP256::invert_scalar(&one).ct_eq_scalar(&one));
}

#[test]
fn p256_zero_checks_and_random() {
    assert!(NistP256::is_zero_scalar(&NistP256::zero_scalar()));
    let wide = vec![0xabu8; 48];
    let s = NistP256::random_scalar(&wide).unwrap();
    assert!(!NistP256::is_zero_scalar(&s));
    assert_eq!(
        scalar_err(NistP256::random_scalar(&vec![1u8; 64])),
        InternalError::Input
    );
}

#[test]
fn p256_scalar_arithmetic_is_exact() {
    let mut two = vec![0u8; 32];
    two[31] = 2;
    let mut three = vec![0u8; 32];
    three[31] = 3;
    let s2 = NistP256::deserialize_scalar(&two).unwrap();
    let s3 = NistP256::deserialize_scalar(&three).unwrap();
    let mut five = vec![0u8; 32];
    five[31] = 5;
    assert_eq!(NistP256::serialize_scalar(&s2.add_mod(&s3)), five);
    let mut six = vec![0u8; 32];
    six[31] = 6;
    assert_eq!(NistP256::serialize_scalar(&s2.mul_mod(&s3)), six);
    let mut one = vec![0u8; 32];
    one[31] = 1;
    assert_eq!(NistP256::serialize_scalar(&s3.sub_mod(&s2)), one);
}

#[test]
fn p256_element_arithmetic() {
    let base = NistP256::base_elem();
    let ident = NistP256::identity_elem();
    let sum = base.add_elem(&ident);
    assert_eq!(NistP256::serialize_elem(&sum), NistP256::serialize_elem(&base));
    let one = one_scalar();
    let still_base = base.mul_scalar(&one);
    assert_eq!(
        NistP256::serialize_elem(&still_base),
        NistP256::serialize_elem(&base)
    );
    let two = one.add_mod(&one);
    let doubled = base.mul_scalar(&two);
    let added = base.add_elem(&base);
    assert_eq!(
        NistP256::serialize_elem(&doubled),
        NistP256::serialize_elem(&added)
    );
    assert_ne!(
        NistP256::serialize_elem(&doubled),
        NistP256::serialize_elem(&base)
    );
    // An element plus its negation is the identity, in identity representation.
    let minus_one = NistP256::zero_scalar().sub_mod(&one);
    let neg_base = base.mul_scalar(&minus_one);
    let zero_sum = base.add_elem(&neg_base);
    assert_eq!(NistP256::serialize_elem(&zero_sum), vec![0u8; 33]);
}

#[test]
fn p256_end_to_end_example() {
    let input = vec![b"password".to_vec()];
    let e1 = NistP256::hash_to_curve(&input, Mode::Base, 3).unwrap();
    let e2 = NistP256::hash_to_curve(&input, Mode::Base, 3).unwrap();
    let ser = NistP256::serialize_elem(&e1);
    assert_eq!(ser, NistP256::serialize_elem(&e2));
    let back = NistP256::deserialize_elem(&ser).unwrap();
    assert_eq!(NistP256::serialize_elem(&back), ser);
}

#[test]
fn p256_wipe_consumes_values() {
    let input = vec![b"secret".to_vec()];
    let s = NistP256::hash_to_scalar(&input, Mode::Base, 3).unwrap();
    s.wipe();
    let e = NistP256::hash_to_curve(&input, Mode::Base, 3).unwrap();
    e.wipe();
}
