use id_registry::{AuthError, Contract, Id};

#[test]
fn test_basics() {
    let account1 = "acc1".to_string();
    let account2 = "acc2".to_string();
    let mut c = Contract::new();
    c.set(&account1, None, "label".to_string(), Some("test".to_string()), None).unwrap();
    assert_eq!(
        c.get(Id::AccountId(account1.clone()), "label".to_string()),
        Some("test".to_string())
    );
    c.set(
        &account1,
        Some(Id::AccountId(account1.clone())),
        "label".to_string(),
        Some("test2".to_string()),
        None,
    )
    .unwrap();
    assert_eq!(
        c.get(Id::AccountId(account1.clone()), "label".to_string()),
        Some("test2".to_string())
    );
    c.delegate(&account1, Some(account2.clone()));
    c.set(
        &account2,
        Some(Id::AccountId(account1.clone())),
        "label".to_string(),
        Some("test3".to_string()),
        None,
    )
    .unwrap();
    assert_eq!(
        c.get(Id::AccountId(account1.clone()), "label".to_string()),
        Some("test3".to_string())
    );
}

#[test]
fn test_self_write_never_needs_delegation() {
    let account = "lonely.near".to_string();
    let mut c = Contract::new();
    // no delegation record, no proof: the write still lands in the caller's
    // own namespace
    c.set(&account, None, "bio".to_string(), Some("hi".to_string()), None).unwrap();
    assert_eq!(c.get(Id::AccountId(account.clone()), "bio".to_string()), Some("hi".to_string()));
    // a different account's namespace stays empty
    assert_eq!(c.get(Id::AccountId("other.near".to_string()), "bio".to_string()), None);
}

#[test]
fn test_third_account_is_not_delegate() {
    let account1 = "acc1".to_string();
    let account2 = "acc2".to_string();
    let account3 = "acc3".to_string();
    let mut c = Contract::new();
    c.set(&account1, None, "label".to_string(), Some("test".to_string()), None).unwrap();
    c.delegate(&account1, Some(account2.clone()));
    c.set(
        &account2,
        Some(Id::AccountId(account1.clone())),
        "label".to_string(),
        Some("test3".to_string()),
        None,
    )
    .unwrap();
    assert_eq!(
        c.get(Id::AccountId(account1.clone()), "label".to_string()),
        Some("test3".to_string())
    );
    let denied = c.set(
        &account3,
        Some(Id::AccountId(account1.clone())),
        "label".to_string(),
        Some("evil".to_string()),
        None,
    );
    assert_eq!(denied, Err(AuthError::NotDelegate));
    // the denied write mutated nothing
    assert_eq!(
        c.get(Id::AccountId(account1.clone()), "label".to_string()),
        Some("test3".to_string())
    );
}

#[test]
fn test_delegation_revocation() {
    let grantor = "grantor.near".to_string();
    let delegate = "delegate.near".to_string();
    let mut c = Contract::new();
    c.delegate(&grantor, Some(delegate.clone()));
    c.set(
        &delegate,
        Some(Id::AccountId(grantor.clone())),
        "k".to_string(),
        Some("v1".to_string()),
        None,
    )
    .unwrap();
    c.delegate(&grantor, None);
    let denied = c.set(
        &delegate,
        Some(Id::AccountId(grantor.clone())),
        "k".to_string(),
        Some("v2".to_string()),
        None,
    );
    assert_eq!(denied, Err(AuthError::NotDelegate));
    assert_eq!(c.get(Id::AccountId(grantor.clone()), "k".to_string()), Some("v1".to_string()));
}

#[test]
fn test_delegation_overwrite() {
    let grantor = "grantor.near".to_string();
    let first = "first.near".to_string();
    let second = "second.near".to_string();
    let mut c = Contract::new();
    c.delegate(&grantor, Some(first.clone()));
    c.delegate(&grantor, Some(second.clone()));
    let denied = c.set(
        &first,
        Some(Id::AccountId(grantor.clone())),
        "k".to_string(),
        Some("v".to_string()),
        None,
    );
    assert_eq!(denied, Err(AuthError::NotDelegate));
    c.set(
        &second,
        Some(Id::AccountId(grantor.clone())),
        "k".to_string(),
        Some("v".to_string()),
        None,
    )
    .unwrap();
    assert_eq!(c.get(Id::AccountId(grantor.clone()), "k".to_string()), Some("v".to_string()));
}

#[test]
fn test_deletion_semantics() {
    let owner = "owner.near".to_string();
    let stranger = "stranger.near".to_string();
    let mut c = Contract::new();
    c.set(&owner, None, "k".to_string(), Some("v".to_string()), None).unwrap();
    assert_eq!(c.get(Id::AccountId(owner.clone()), "k".to_string()), Some("v".to_string()));
    // deletion needs the same authorization as a write
    let denied = c.set(&stranger, Some(Id::AccountId(owner.clone())), "k".to_string(), None, None);
    assert_eq!(denied, Err(AuthError::NotDelegate));
    assert_eq!(c.get(Id::AccountId(owner.clone()), "k".to_string()), Some("v".to_string()));
    // the owner's deletion makes the entry absent
    c.set(&owner, Some(Id::AccountId(owner.clone())), "k".to_string(), None, None).unwrap();
    assert_eq!(c.get(Id::AccountId(owner.clone()), "k".to_string()), None);
    // deleting an absent entry is not an error
    c.set(&owner, None, "k".to_string(), None, None).unwrap();
    assert_eq!(c.get(Id::AccountId(owner.clone()), "k".to_string()), None);
}

#[test]
fn test_set_idempotent() {
    let account = "acc.near".to_string();
    let mut c = Contract::new();
    c.set(&account, None, "k".to_string(), Some("v".to_string()), None).unwrap();
    c.set(&account, None, "k".to_string(), Some("v".to_string()), None).unwrap();
    assert_eq!(c.get(Id::AccountId(account.clone()), "k".to_string()), Some("v".to_string()));
    assert_eq!(c.get(Id::AccountId(account.clone()), "other".to_string()), None);
}

#[test]
fn test_namespaces_do_not_collide() {
    let account = "alice".to_string();
    let mut c = Contract::new();
    c.set(&account, None, "k".to_string(), Some("native".to_string()), None).unwrap();
    // the same payload text under the foreign tag names a different key
    assert_eq!(c.get(Id::EvmAddress("alice".to_string()), "k".to_string()), None);
    assert_eq!(c.get(Id::AccountId("alice".to_string()), "k".to_string()), Some("native".to_string()));
}

#[test]
fn test_to_string_tags() {
    assert_eq!(Id::AccountId("acc1".to_string()).to_string(), "near|acc1".to_string());
    assert_eq!(Id::EvmAddress("0xabcd".to_string()).to_string(), "evm|0xabcd".to_string());
}

#[test]
fn test_resolve_id_names_the_namespace() {
    let caller = "caller.near".to_string();
    let mut c = Contract::new();
    assert_eq!(
        c.resolve_id(&caller, None, &None, None),
        Ok("near|caller.near".to_string())
    );
    assert_eq!(
        c.resolve_id(&caller, Some(Id::AccountId(caller.clone())), &None, None),
        Ok("near|caller.near".to_string())
    );
    c.delegate(&"grantor.near".to_string(), Some(caller.clone()));
    assert_eq!(
        c.resolve_id(&caller, Some(Id::AccountId("grantor.near".to_string())), &None, None),
        Ok("near|grantor.near".to_string())
    );
    assert_eq!(
        c.resolve_id(&caller, Some(Id::AccountId("stranger.near".to_string())), &None, None),
        Err(AuthError::NotDelegate)
    );
}
