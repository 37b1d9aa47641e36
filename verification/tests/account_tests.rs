use anchor_introspection::account::{AccountRef, Address};

#[test]
fn test_address_new_keeps_bytes() {
    let a = Address::new(vec![3u8; 32]);
    assert_eq!(a.bytes(), &vec![3u8; 32]);
}

#[test]
fn test_address_duplicate_is_equal() {
    let a = Address::new(vec![5u8; 32]);
    let b = a.duplicate();
    assert_eq!(a, b);
}

#[test]
fn test_account_ref_duplicate_keeps_fields() {
    let a = AccountRef::new(Address::new(vec![5u8; 32]), true, false);
    let b = a.duplicate();
    assert_eq!(a, b);
    assert!(b.is_signer);
    assert!(!b.is_writable);
}
