use zcash_sentinel::store::{AccountStore, PoolBalances, ShieldedAccount, StoreError, TransparentAddress};

fn account(label: &str, vk: &str, birthday: u64) -> ShieldedAccount {
    ShieldedAccount {
        label: label.to_string(),
        viewing_key: vk.to_string(),
        birthday_height: birthday,
        last_synced_height: 0,
        balances: PoolBalances { transparent: 0, sapling: 0, orchard: 0 },
    }
}

fn address(label: &str, addr: &str) -> TransparentAddress {
    TransparentAddress {
        label: label.to_string(),
        address: addr.to_string(),
        last_synced_height: 0,
        balance_zatoshis: 0,
    }
}

fn labels(store: &AccountStore) -> Vec<String> {
    store.account_labels()
}

#[test]
fn total_sums_the_three_pools() {
    let b = PoolBalances { transparent: 1, sapling: 50_000_000, orchard: 100_000_000 };
    assert_eq!(b.total(), 150_000_001);
    assert!(b.total_is_representable());
}

#[test]
fn total_of_default_is_zero() {
    let b = PoolBalances::default();
    assert_eq!(b, PoolBalances { transparent: 0, sapling: 0, orchard: 0 });
    assert_eq!(b.total(), 0);
}

#[test]
fn total_at_the_u64_limit() {
    let b = PoolBalances { transparent: u64::MAX - 2, sapling: 1, orchard: 1 };
    assert!(b.total_is_representable());
    assert_eq!(b.total(), u64::MAX);
    let c = PoolBalances { transparent: u64::MAX, sapling: 0, orchard: 1 };
    assert!(!c.total_is_representable());
    let d = PoolBalances { transparent: u64::MAX, sapling: 1, orchard: 0 };
    assert!(!d.total_is_representable());
}

#[test]
fn missing_pool_totals_count_as_zero() {
    let b = PoolBalances::from_pool_totals(Some(7), None, Some(9));
    assert_eq!(b, PoolBalances { transparent: 7, sapling: 0, orchard: 9 });
    let z = PoolBalances::from_pool_totals(None, None, None);
    assert_eq!(z, PoolBalances { transparent: 0, sapling: 0, orchard: 0 });
}

#[test]
fn new_store_is_empty() {
    let s = AccountStore::new("/tmp/accounts.json".to_string());
    assert_eq!(s.accounts().len(), 0);
    assert_eq!(s.addresses().len(), 0);
    assert_eq!(s.file_path(), "/tmp/accounts.json");
    assert!(!s.contains_label("x"));
}

#[test]
fn add_account_then_read_back() {
    let mut s = AccountStore::new("f".to_string());
    assert!(s.add_account(account("wallet", "uview1abc", 2_400_000)).is_ok());
    assert!(s.contains_label("wallet"));
    let a = s.accounts().get("wallet").unwrap();
    assert_eq!(a.viewing_key, "uview1abc");
    assert_eq!(a.birthday_height, 2_400_000);
    assert_eq!(labels(&s), vec!["wallet".to_string()]);
}

#[test]
fn duplicate_label_is_refused_across_kinds() {
    let mut s = AccountStore::new("f".to_string());
    s.add_account(account("a", "k", 1)).unwrap();
    match s.add_account(account("a", "k2", 2)) {
        Err(e @ StoreError::LabelTaken { .. }) => {
            assert_eq!(e.message(), "Account with label 'a' already exists");
        }
        other => panic!("unexpected {:?}", other),
    }
    match s.add_address(address("a", "t1xyz")) {
        Err(e) => assert_eq!(e.message(), "Account with label 'a' already exists"),
        Ok(()) => panic!("address with taken label accepted"),
    }
    s.add_address(address("b", "t1xyz")).unwrap();
    assert!(s.add_account(account("b", "k", 1)).is_err());
    assert_eq!(s.accounts().len(), 1);
    assert_eq!(s.addresses().len(), 1);
    assert_eq!(s.accounts().get("a").unwrap().viewing_key, "k");
}

#[test]
fn remove_prefers_accounts_then_addresses() {
    let mut s = AccountStore::new("f".to_string());
    s.add_account(account("a", "k", 1)).unwrap();
    s.add_address(address("b", "t1")).unwrap();
    assert!(s.remove("b").is_ok());
    assert_eq!(s.addresses().len(), 0);
    assert_eq!(s.accounts().len(), 1);
    assert!(s.remove("a").is_ok());
    assert_eq!(s.accounts().len(), 0);
}

#[test]
fn remove_absent_label_is_refused() {
    let mut s = AccountStore::new("f".to_string());
    s.add_account(account("a", "k", 1)).unwrap();
    match s.remove("zzz") {
        Err(e @ StoreError::NotFound { .. }) => assert_eq!(e.message(), "No account with label 'zzz'"),
        other => panic!("unexpected {:?}", other),
    }
    assert_eq!(s.accounts().len(), 1);
}

#[test]
fn remove_undoes_add() {
    let mut s = AccountStore::new("f".to_string());
    s.add_account(account("a", "k", 1)).unwrap();
    s.add_account(account("c", "k", 1)).unwrap();
    s.add_account(account("b", "k", 1)).unwrap();
    s.remove("b").unwrap();
    assert_eq!(labels(&s), vec!["a".to_string(), "c".to_string()]);
    s.add_address(address("t", "t1")).unwrap();
    s.remove("t").unwrap();
    assert_eq!(s.addresses().len(), 0);
    assert!(!s.contains_label("t"));
}

#[test]
fn update_account_balances_read_back() {
    let mut s = AccountStore::new("f".to_string());
    s.add_account(account("a", "k", 5)).unwrap();
    s.add_account(account("b", "k", 6)).unwrap();
    let b = PoolBalances { transparent: 1, sapling: 2, orchard: 3 };
    assert!(s.update_account_balances("a", b, 2_500_000));
    let a = s.accounts().get("a").unwrap();
    assert_eq!(a.balances, b);
    assert_eq!(a.last_synced_height, 2_500_000);
    assert_eq!(a.birthday_height, 5);
    assert_eq!(labels(&s), vec!["a".to_string(), "b".to_string()]);
    assert!(!s.update_account_balances("nope", b, 1));
    assert_eq!(s.accounts().len(), 2);
}

#[test]
fn update_address_balance_read_back() {
    let mut s = AccountStore::new("f".to_string());
    s.add_address(address("t", "t1abc")).unwrap();
    assert!(s.update_address_balance("t", 42, 99));
    let t = s.addresses().get("t").unwrap();
    assert_eq!(t.balance_zatoshis, 42);
    assert_eq!(t.last_synced_height, 99);
    assert_eq!(t.address, "t1abc");
    assert!(!s.update_address_balance("a", 1, 1));
    // an account label is not an address
    s.add_account(account("a", "k", 1)).unwrap();
    assert!(!s.update_address_balance("a", 1, 1));
}

#[test]
fn from_parsed_later_entry_wins() {
    let accounts = vec![
        ("x".to_string(), account("x", "first", 1)),
        ("y".to_string(), account("y", "k", 2)),
        ("x".to_string(), account("x", "second", 3)),
    ];
    let addresses = vec![("t".to_string(), address("t", "t1"))];
    let s = AccountStore::from_parsed("p".to_string(), Some((accounts, addresses)));
    assert_eq!(labels(&s), vec!["x".to_string(), "y".to_string()]);
    assert_eq!(s.accounts().get("x").unwrap().viewing_key, "second");
    assert_eq!(s.addresses().len(), 1);
    assert_eq!(s.file_path(), "p");
}

#[test]
fn from_parsed_nothing_is_empty() {
    let s = AccountStore::from_parsed("p".to_string(), None);
    assert_eq!(s.accounts().len(), 0);
    assert_eq!(s.addresses().len(), 0);
    assert_eq!(s.file_path(), "p");
}

#[test]
fn sync_lags_saturate_at_zero() {
    let mut s = AccountStore::new("f".to_string());
    s.add_account(account("behind", "k", 1)).unwrap();
    s.add_account(account("ahead", "k", 1)).unwrap();
    let z = PoolBalances { transparent: 0, sapling: 0, orchard: 0 };
    s.update_account_balances("behind", z, 90);
    s.update_account_balances("ahead", z, 120);
    let lags = s.sync_lags(100).unwrap();
    assert_eq!(lags, vec![("behind".to_string(), 10), ("ahead".to_string(), 0)]);
    assert!(s.sync_lags(0).is_none());
}

#[test]
fn totals_fit_detects_overflow() {
    let mut s = AccountStore::new("f".to_string());
    s.add_account(account("a", "k", 1)).unwrap();
    assert!(s.totals_fit());
    s.update_account_balances("a", PoolBalances { transparent: u64::MAX, sapling: 1, orchard: 0 }, 1);
    assert!(!s.totals_fit());
}

#[test]
fn label_in_both_kinds_removes_account_first() {
    let accounts = vec![("dup".to_string(), account("dup", "k", 1))];
    let addresses = vec![("dup".to_string(), address("dup", "t1"))];
    let mut s = AccountStore::from_parsed("p".to_string(), Some((accounts, addresses)));
    assert!(s.remove("dup").is_ok());
    assert_eq!(s.accounts().len(), 0);
    assert_eq!(s.addresses().len(), 1);
    assert!(s.contains_label("dup"));
    assert!(s.remove("dup").is_ok());
    assert!(!s.contains_label("dup"));
}

#[test]
fn entries_read_back_in_any_order_restore_the_registry() {
    let mut s = AccountStore::new("f".to_string());
    s.add_account(account("a", "ka", 1)).unwrap();
    s.add_account(account("b", "kb", 2)).unwrap();
    s.add_address(address("t", "t1")).unwrap();
    s.update_account_balances("b", PoolBalances { transparent: 1, sapling: 2, orchard: 3 }, 9);
    let mut accounts: Vec<(String, ShieldedAccount)> = Vec::new();
    for i in (0..s.accounts().len()).rev() {
        accounts.push((s.accounts().key_at(i).clone(), s.accounts().value_at(i).clone()));
    }
    let addresses = vec![(s.addresses().key_at(0).clone(), s.addresses().value_at(0).clone())];
    let r = AccountStore::from_parsed(s.file_path().clone(), Some((accounts, addresses)));
    for l in ["a", "b"] {
        let x = s.accounts().get(l).unwrap();
        let y = r.accounts().get(l).unwrap();
        assert_eq!(x.viewing_key, y.viewing_key);
        assert_eq!(x.balances, y.balances);
        assert_eq!(x.last_synced_height, y.last_synced_height);
    }
    assert_eq!(r.addresses().get("t").unwrap().address, "t1");
    assert_eq!(r.file_path(), "f");
}
