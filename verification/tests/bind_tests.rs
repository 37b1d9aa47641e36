use anchor_introspection::account::{AccountRef, Address};
use anchor_introspection::bind::{bind, BindError, BoundAccount};
use anchor_introspection::schema::{Schema, SlotKind};

fn addr(tag: u8) -> Address {
    Address::new(vec![tag; 32])
}

fn acct(tag: u8) -> AccountRef {
    AccountRef::new(addr(tag), false, false)
}

#[test]
fn test_bind_partitions_prefix_and_suffix() {
    let schema = Schema::new("Foo", vec![SlotKind::Required, SlotKind::Required]);
    let accounts = vec![acct(1), acct(2), acct(3), acct(4)];
    let sentinel = addr(9);
    let b = bind(&accounts, &schema, &sentinel).unwrap();
    assert_eq!(b.bound.len(), 2);
    assert_eq!(b.remaining.len(), 2);
    assert_eq!(b.bound.len() + b.remaining.len(), accounts.len());
    assert_eq!(b.bound[0], BoundAccount::Present(acct(1)));
    assert_eq!(b.bound[1], BoundAccount::Present(acct(2)));
    // The remaining accounts are exactly the tail, in original order.
    assert_eq!(b.remaining[0], acct(3));
    assert_eq!(b.remaining[1], acct(4));
}

#[test]
fn test_bind_exact_length_leaves_no_remaining() {
    let schema = Schema::new("Foo", vec![SlotKind::Required]);
    let accounts = vec![acct(1)];
    let b = bind(&accounts, &schema, &addr(9)).unwrap();
    assert_eq!(b.bound.len(), 1);
    assert!(b.remaining.is_empty());
}

#[test]
fn test_bind_empty_schema_passes_everything_through() {
    let schema = Schema::new("Foo", vec![]);
    let accounts = vec![acct(1), acct(2)];
    let b = bind(&accounts, &schema, &addr(9)).unwrap();
    assert!(b.bound.is_empty());
    assert_eq!(b.remaining, vec![acct(1), acct(2)]);
}

#[test]
fn test_optional_sentinel_absent_and_present() {
    let schema = Schema::new(
        "Foo",
        vec![SlotKind::Optional, SlotKind::Optional, SlotKind::Required],
    );
    let sentinel = addr(7);
    let accounts = vec![
        // Optional slot holding the sentinel address: absent.
        AccountRef::new(addr(7), false, false),
        // Optional slot holding any other address, equal to no one special: present.
        acct(2),
        // Required slot is never checked against the sentinel: present even
        // when it carries the sentinel address.
        AccountRef::new(addr(7), true, true),
    ];
    let b = bind(&accounts, &schema, &sentinel).unwrap();
    assert_eq!(b.bound[0], BoundAccount::Absent);
    assert_eq!(b.bound[1], BoundAccount::Present(acct(2)));
    assert_eq!(
        b.bound[2],
        BoundAccount::Present(AccountRef::new(addr(7), true, true))
    );
}

#[test]
fn test_sentinel_check_ignores_flags() {
    // Absence is decided by address equality alone: signer and writable
    // flags on the sentinel-bearing account change nothing.
    let schema = Schema::new("Foo", vec![SlotKind::Optional]);
    let accounts = vec![AccountRef::new(addr(7), true, true)];
    let b = bind(&accounts, &schema, &addr(7)).unwrap();
    assert_eq!(b.bound[0], BoundAccount::Absent);
}

#[test]
fn test_optional_slot_equal_to_other_account_is_present() {
    // An optional slot whose address merely equals another non-sentinel
    // account's address is still present, and refers to that exact account.
    let schema = Schema::new("Foo", vec![SlotKind::Required, SlotKind::Optional]);
    let accounts = vec![acct(3), AccountRef::new(addr(3), true, false)];
    let b = bind(&accounts, &schema, &addr(9)).unwrap();
    assert_eq!(
        b.bound[1],
        BoundAccount::Present(AccountRef::new(addr(3), true, false))
    );
}

#[test]
fn test_insufficient_accounts() {
    let schema = Schema::new("Foo", vec![SlotKind::Required, SlotKind::Optional]);
    let accounts = vec![acct(1)];
    assert_eq!(
        bind(&accounts, &schema, &addr(9)).unwrap_err(),
        BindError::InsufficientAccounts
    );
    let empty: Vec<AccountRef> = vec![];
    assert_eq!(
        bind(&empty, &schema, &addr(9)).unwrap_err(),
        BindError::InsufficientAccounts
    );
}
