use voprf_group::dst::{
    create_context_string, hash_to_group_dst, hash_to_scalar_dst, str_hash_to_group,
    str_hash_to_scalar,
};
use voprf_group::Mode;

#[test]
fn prefixes_are_the_ascii_strings() {
    assert_eq!(str_hash_to_group(), b"HashToGroup-".to_vec());
    assert_eq!(str_hash_to_scalar(), b"HashToScalar-".to_vec());
}

#[test]
fn context_string_layout() {
    let ctx = create_context_string(Mode::Base, 1);
    assert_eq!(ctx, b"VOPRF08-\x00\x00\x01".to_vec());
    let ctx = create_context_string(Mode::Verifiable, 0x0203);
    assert_eq!(ctx, b"VOPRF08-\x01\x02\x03".to_vec());
}

#[test]
fn full_dsts() {
    assert_eq!(
        hash_to_group_dst(Mode::Base, 1),
        b"HashToGroup-VOPRF08-\x00\x00\x01".to_vec()
    );
    assert_eq!(
        hash_to_scalar_dst(Mode::Verifiable, 1),
        b"HashToScalar-VOPRF08-\x01\x00\x01".to_vec()
    );
}
