use voprf_group::{Group, InternalError, Mode, Ristretto255};

fn one_scalar() -> voprf_group::ristretto::RistrettoScalar {
    let mut b = vec![0u8; 32];
    b[0] = 1;
    Ristretto255::deserialize_scalar(&b).unwrap()
}

fn elem_err(r: Result<voprf_group::ristretto::RistrettoElem, InternalError>) -> InternalError {
    match r {
        Ok(_) => panic!("expected an error"),
        Err(e) => e,
    }
}

fn scalar_err(r: Result<voprf_group::ristretto::RistrettoScalar, InternalError>) -> InternalError {
    match r {
        Ok(_) => panic!("expected an error"),
        Err(e) => e,
    }
}

#[test]
fn base_elem_round_trip() {
    let base = Ristretto255::base_elem();
    let ser = Ristretto255::serialize_elem(&base);
    assert_eq!(ser.len(), 32);
    let back = Ristretto255::deserialize_elem(&ser).unwrap();
    assert_eq!(Ristretto255::serialize_elem(&back), ser);
}

#[test]
fn base_elem_bytes_are_fixed() {
    let ser = Ristretto255::serialize_elem(&Ristretto255::base_elem());
    assert_eq!(ser[0], 0xe2);
    assert_eq!(ser[1], 0xf2);
    assert_eq!(ser[31], 0x76);
}

#[test]
fn identity_elem_is_rejected() {
    let ident = Ristretto255::identity_elem();
    let ser = Ristretto255::serialize_elem(&ident);
    assert_eq!(ser, vec![0u8; 32]);
    assert_eq!(
        elem_err(Ristretto255::deserialize_elem(&ser)),
        InternalError::Deserialization
    );
}

#[test]
fn zero_scalar_is_rejected() {
    let zero = Ristretto255::zero_scalar();
    let ser = Ristretto255::serialize_scalar(&zero);
    assert_eq!(ser, vec![0u8; 32]);
    assert_eq!(
        scalar_err(Ristretto255::deserialize_scalar(&ser)),
        InternalError::Deserialization
    );
}

#[test]
fn scalar_round_trip() {
    let mut b = vec![0u8; 32];
    b[0] = 42;
    b[5] = 7;
    let s = Ristretto255::deserialize_scalar(&b).unwrap();
    assert_eq!(Ristretto255::serialize_scalar(&s), b);
}

#[test]
fn scalar_canonical_boundary() {
    // The group order, little-endian: rejected (not reduced).
    let order_le: [u8; 16] = [
        0xed, 0xd3, 0xf5, 0x5c, 0x1a, 0x63, 0x12, 0x58, 0xd6, 0x9c, 0xf7, 0xa2, 0xde, 0xf9,
        0xde, 0x14,
    ];
    let mut order_bytes = vec![0u8; 32];
    order_bytes[..16].copy_from_slice(&order_le);
    order_bytes[31] = 0x10;
    assert_eq!(
        scalar_err(Ristretto255::deserialize_scalar(&order_bytes)),
        InternalError::Deserialization
    );
    // The order minus one: accepted.
    let mut below = order_bytes.clone();
    below[0] = 0xec;
    let s = Ristretto255::deserialize_scalar(&below).unwrap();
    assert_eq!(Ristretto255::serialize_scalar(&s), below);
    // Reducing the order itself (as 64 wide bytes) gives the zero scalar.
    let mut wide = order_bytes.clone();
    wide.extend_from_slice(&[0u8; 32]);
    let reduced = Ristretto255::random_scalar(&wide).unwrap();
    assert!(Ristretto255::is_zero_scalar(&reduced));
}

#[test]
fn deserialize_elem_rejects_bad_input() {
    assert_eq!(
        elem_err(Ristretto255::deserialize_elem(&vec![1u8; 16])),
        InternalError::Deserialization
    );
    assert_eq!(
        elem_err(Ristretto255::deserialize_elem(&vec![0xffu8; 32])),
        InternalError::Deserialization
    );
}

#[test]
fn deserialize_scalar_rejects_bad_length() {
    assert_eq!(
        scalar_err(Ristretto255::deserialize_scalar(&vec![1u8; 31])),
        InternalError::Deserialization
    );
}

#[test]
fn hash_to_curve_is_deterministic() {
    let input = vec![b"some input".to_vec()];
    let e1 = Ristretto255::hash_to_curve(&input, Mode::Base, 1).unwrap();
    let e2 = Ristretto255::hash_to_curve(&input, Mode::Base, 1).unwrap();
    assert_eq!(
        Ristretto255::serialize_elem(&e1),
        Ristretto255::serialize_elem(&e2)
    );
    // Changing the mode, the suite or the input changes the output.
    let e3 = Ristretto255::hash_to_curve(&input, Mode::Verifiable, 1).unwrap();
    let e4 = Ristretto255::hash_to_curve(&input, Mode::Base, 2).unwrap();
    let e5 = Ristretto255::hash_to_curve(&vec![b"other input".to_vec()], Mode::Base, 1).unwrap();
    assert_ne!(
        Ristretto255::serialize_elem(&e1),
        Ristretto255::serialize_elem(&e3)
    );
    assert_ne!(
        Ristretto255::serialize_elem(&e1),
        Ristretto255::serialize_elem(&e4)
    );
    assert_ne!(
        Ristretto255::serialize_elem(&e1),
        Ristretto255::serialize_elem(&e5)
    );
}

#[test]
fn hash_to_scalar_is_deterministic() {
    let input = vec![b"some input".to_vec()];
    let s1 = Ristretto255::hash_to_scalar(&input, Mode::Base, 1).unwrap();
    let s2 = Ristretto255::hash_to_scalar(&input, Mode::Base, 1).unwrap();
    assert!(s1.ct_eq_scalar(&s2));
    let s3 = Ristretto255::hash_to_scalar(&input, Mode::Verifiable, 1).unwrap();
    assert!(!s1.ct_eq_scalar(&s3));
}

#[test]
fn domain_separation_changes_the_scalar() {
    let input = vec![b"fixed input".to_vec()];
    let dst_a = b"tag-A".to_vec();
    let dst_b = b"tag-B".to_vec();
    let sa = Ristretto255::hash_to_scalar_with_dst(&input, &dst_a).unwrap();
    let sb = Ristretto255::hash_to_scalar_with_dst(&input, &dst_b).unwrap();
    assert!(!sa.ct_eq_scalar(&sb));
}

#[test]
fn empty_dst_is_an_input_error() {
    let input = vec![b"x".to_vec()];
    assert_eq!(
        scalar_err(Ristretto255::hash_to_scalar_with_dst(&input, &Vec::new())),
        InternalError::Input
    );
}

#[test]
fn input_bounds() {
    let empty: Vec<Vec<u8>> = Vec::new();
    assert_eq!(
        elem_err(Ristretto255::hash_to_curve(&empty, Mode::Base, 1)),
        InternalError::Input
    );
    assert_eq!(
        scalar_err(Ristretto255::hash_to_scalar(&empty, Mode::Base, 1)),
        InternalError::Input
    );
    let empty_parts = vec![Vec::new(), Vec::new()];
    assert_eq!(
        elem_err(Ristretto255::hash_to_curve(&empty_parts, Mode::Base, 1)),
        InternalError::Input
    );
    let too_long = vec![vec![7u8; 65536]];
    assert_eq!(
        elem_err(Ristretto255::hash_to_curve(&too_long, Mode::Base, 1)),
        InternalError::Input
    );
    assert_eq!(
        scalar_err(Ristretto255::hash_to_scalar(&too_long, Mode::Base, 1)),
        InternalError::Input
    );
    let longest = vec![vec![7u8; 65000], vec![7u8; 535]];
    assert!(Ristretto255::hash_to_curve(&longest, Mode::Base, 1).is_ok());
    assert!(Ristretto255::hash_to_scalar(&longest, Mode::Base, 1).is_ok());
}

#[test]
fn invert_twice_returns_the_scalar() {
    let input = vec![b"invert me".to_vec()];
    let s = Ristretto255::hash_to_scalar(&input, Mode::Base, 1).unwrap();
    assert!(!Ristretto255::is_zero_scalar(&s));
    let inv = Ristretto255::invert_scalar(&s);
    let back = Ristretto255::invert_scalar(&inv);
    assert!(back.ct_eq_scalar(&s));
}

#[test]
fn invert_of_one_is_one() {
    let one = one_scalar();
    let inv = Ristretto255::invert_scalar(&one);
    assert!(inv.ct_eq_scalar(&one));
}

#[test]
fn zero_checks() {
    assert!(Ristretto255::is_zero_scalar(&Ristretto255::zero_scalar()));
    let wide = vec![0xabu8; 64];
    let s = Ristretto255::random_scalar(&wide).unwrap();
    assert!(!Ristretto255::is_zero_scalar(&s));
    assert_eq!(
        scalar_err(Ristretto255::random_scalar(&vec![1u8; 16])),
        InternalError::Input
    );
}

#[test]
fn scalar_arithmetic_is_exact() {
    let mut two = vec![0u8; 32];
    two[0] = 2;
    let mut three = vec![0u8; 32];
    three[0] = 3;
    let s2 = Ristretto255::deserialize_scalar(&two).unwrap();
    let s3 = Ristretto255::deserialize_scalar(&three).unwrap();
    let mut five = vec![0u8; 32];
    five[0] = 5;
    assert_eq!(Ristretto255::serialize_scalar(&s2.add_mod(&s3)), five);
    let mut six = vec![0u8; 32];
    six[0] = 6;
    assert_eq!(Ristretto255::serialize_scalar(&s2.mul_mod(&s3)), six);
    let mut one = vec![0u8; 32];
    one[0] = 1;
    assert_eq!(Ristretto255::serialize_scalar(&s3.sub_mod(&s2)), one);
}

#[test]
fn element_arithmetic() {
    let base = Ristretto255::base_elem();
    let ident = Ristretto255::identity_elem();
    let sum = base.add_elem(&ident);
    assert_eq!(
        Ristretto255::serialize_elem(&sum),
        Ristretto255::serialize_elem(&base)
    );
    let one = one_scalar();
    let still_base = base.mul_scalar(&one);
    assert_eq!(
        Ristretto255::serialize_elem(&still_base),
        Ristretto255::serialize_elem(&base)
    );
    let two = one.add_mod(&one);
    let doubled = base.mul_scalar(&two);
    let added = base.add_elem(&base);
    assert_eq!(
        Ristretto255::serialize_elem(&doubled),
        Ristretto255::serialize_elem(&added)
    );
    assert_ne!(
        Ristretto255::serialize_elem(&doubled),
        Ristretto255::serialize_elem(&base)
    );
}

#[test]
fn end_to_end_example() {
    let input = vec![b"password".to_vec()];
    let e1 = Ristretto255::hash_to_curve(&input, Mode::Base, 1).unwrap();
    let e2 = Ristretto255::hash_to_curve(&input, Mode::Base, 1).unwrap();
    let ser = Ristretto255::serialize_elem(&e1);
    assert_eq!(ser, Ristretto255::serialize_elem(&e2));
    let back = Ristretto255::deserialize_elem(&ser).unwrap();
    assert_eq!(Ristretto255::serialize_elem(&back), ser);
}

#[test]
fn wipe_consumes_values() {
    let input = vec![b"secret".to_vec()];
    let s = Ristretto255::hash_to_scalar(&input, Mode::Base, 1).unwrap();
    s.wipe();
    let e = Ristretto255::hash_to_curve(&input, Mode::Base, 1).unwrap();
    e.wipe();
}
