use anchor_introspection::selector::derive_selector;

#[test]
fn test_discriminator() {
    let sel = derive_selector("IX");
    assert_eq!(sel, vec![0x1c, 0x69, 0x36, 0x16, 0x72, 0x3a, 0x62, 0xb5]);
}

#[test]
fn test_selector_deterministic() {
    let a = derive_selector("SharedAccountsRoute");
    let b = derive_selector("SharedAccountsRoute");
    assert_eq!(a, b);
    assert_eq!(a.len(), 8);
    let c = derive_selector("Foo");
    assert_eq!(c.len(), 8);
    assert_ne!(a, c);
}

#[test]
fn test_selector_snake_cases_the_name() {
    // Snake-casing happens before hashing: a camel-case name and its
    // snake-case form give the same selector, while a spelling that
    // snake-cases differently gives another one.
    assert_eq!(
        derive_selector("SharedAccountsRoute"),
        derive_selector("shared_accounts_route")
    );
    assert_ne!(
        derive_selector("SharedAccountsRoute"),
        derive_selector("sharedaccountsroute")
    );
}

#[test]
fn test_selector_of_empty_name() {
    // The derivation is total: the empty name still yields 8 bytes.
    let sel = derive_selector("");
    assert_eq!(sel.len(), 8);
}
