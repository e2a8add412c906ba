use usdt_clone::Identity;

#[test]
fn identities_with_the_same_bytes_are_equal() {
    let mut bytes = [0u8; 32];
    for (i, b) in bytes.iter_mut().enumerate() {
        *b = i as u8;
    }
    let one = Identity { bytes };
    let other = Identity { bytes };
    assert!(one == other);
    assert!(!(one != other));
    assert_eq!(one, one.clone());
}

#[test]
fn identities_differ_when_any_byte_differs() {
    let base = Identity { bytes: [7u8; 32] };
    for at in 0..32 {
        let mut bytes = [7u8; 32];
        bytes[at] = 8;
        let changed = Identity { bytes };
        assert!(base != changed);
        assert!(!(base == changed));
    }
}

#[test]
fn the_zero_identity_is_an_identity_like_any_other() {
    let zero = Identity { bytes: [0u8; 32] };
    let mut bytes = [0u8; 32];
    bytes[31] = 1;
    assert_eq!(zero, Identity { bytes: [0u8; 32] });
    assert_ne!(zero, Identity { bytes });
}
