use zcash_sentinel::api::{
    add_account_handler, add_address_handler, delete_account_handler, get_account_handler,
    get_transactions_check, get_transactions_reply, health_handler, list_accounts_handler,
    AddAccountRequest, AddAddressRequest, ApiReply, BalanceResponse, ReplyBody,
};
use zcash_sentinel::config::{
    Config, LightwalletdConfig, ScannerConfig, ServerConfig, StorageConfig,
};
use zcash_sentinel::scanner::TransactionDetail;
use zcash_sentinel::store::{AccountStore, PoolBalances};

fn config() -> Config {
    Config {
        lightwalletd: LightwalletdConfig { endpoint: "http://lightwalletd:9067".to_string() },
        server: ServerConfig {
            metrics_bind: "0.0.0.0:9100".to_string(),
            api_bind: "0.0.0.0:9101".to_string(),
        },
        scanner: ScannerConfig { poll_interval_secs: 60, default_birthday_height: 2_000_000 },
        storage: StorageConfig { accounts_file: "/var/lib/zcash-sentinel/accounts.json".to_string() },
    }
}

fn add_req(label: &str, birthday: Option<u64>) -> AddAccountRequest {
    AddAccountRequest { label: label.to_string(), viewing_key: "uview1q".to_string(), birthday_height: birthday }
}

fn error_text(r: &ApiReply) -> String {
    match &r.body {
        ReplyBody::Error(e) => e.error.clone(),
        other => panic!("not an error: {:?}", other),
    }
}

fn store_with_entries() -> AccountStore {
    let mut s = AccountStore::new("f".to_string());
    let out = add_account_handler(&mut s, add_req("my-wallet", Some(2_400_000)), 2_000_000, Ok(()));
    assert_eq!(out.reply.status, 201);
    s.update_account_balances(
        "my-wallet",
        PoolBalances { transparent: 0, sapling: 50_000_000, orchard: 100_000_000 },
        2_500_000,
    );
    let out = add_address_handler(
        &mut s,
        AddAddressRequest { label: "t-addr".to_string(), address: "t1abc".to_string() },
    );
    assert_eq!(out.reply.status, 201);
    s.update_address_balance("t-addr", 7, 2_499_999);
    s
}

#[test]
fn balance_response_reports_total() {
    let b = BalanceResponse::from(&PoolBalances { transparent: 0, sapling: 50_000_000, orchard: 100_000_000 });
    assert_eq!(
        b,
        BalanceResponse {
            transparent_zatoshis: 0,
            sapling_zatoshis: 50_000_000,
            orchard_zatoshis: 100_000_000,
            total_zatoshis: 150_000_000,
        }
    );
}

#[test]
fn birthday_defaults_when_omitted() {
    assert_eq!(add_req("a", None).birthday(2_000_000), 2_000_000);
    assert_eq!(add_req("a", Some(2_400_000)).birthday(2_000_000), 2_400_000);
}

#[test]
fn health_counts_entries() {
    let s = store_with_entries();
    let h = health_handler(&s, &config());
    assert_eq!(h.status, "ok");
    assert_eq!(h.watched_accounts, 1);
    assert_eq!(h.watched_addresses, 1);
    assert_eq!(h.lightwalletd_endpoint, "http://lightwalletd:9067");
}

#[test]
fn listing_has_accounts_then_addresses() {
    let s = store_with_entries();
    let list = list_accounts_handler(&s);
    assert_eq!(list.len(), 2);
    assert_eq!(list[0].label, "my-wallet");
    assert_eq!(list[0].account_type, "shielded");
    assert_eq!(list[0].balances.total_zatoshis, 150_000_000);
    assert_eq!(list[0].last_synced_height, 2_500_000);
    assert_eq!(list[1].label, "t-addr");
    assert_eq!(list[1].account_type, "transparent");
    assert_eq!(
        list[1].balances,
        BalanceResponse { transparent_zatoshis: 7, sapling_zatoshis: 0, orchard_zatoshis: 0, total_zatoshis: 7 }
    );
    assert_eq!(list[1].last_synced_height, 2_499_999);
}

#[test]
fn get_account_finds_both_kinds() {
    let s = store_with_entries();
    let r = get_account_handler(&s, "my-wallet");
    assert_eq!(r.status, 200);
    match r.body {
        ReplyBody::Account(a) => {
            assert_eq!(a.label, "my-wallet");
            assert_eq!(a.account_type, "shielded");
            assert_eq!(a.balances.orchard_zatoshis, 100_000_000);
        }
        other => panic!("unexpected {:?}", other),
    }
    let r = get_account_handler(&s, "t-addr");
    assert_eq!(r.status, 200);
    match r.body {
        ReplyBody::Account(a) => assert_eq!(a.account_type, "transparent"),
        other => panic!("unexpected {:?}", other),
    }
}

#[test]
fn get_account_unknown_is_not_found() {
    let s = store_with_entries();
    let r = get_account_handler(&s, "ghost");
    assert_eq!(r.status, 404);
    assert_eq!(error_text(&r), "Account 'ghost' not found");
}

#[test]
fn add_account_scanner_failure_is_500() {
    let mut s = AccountStore::new("f".to_string());
    let out = add_account_handler(&mut s, add_req("a", None), 2_000_000, Err("invalid uri character".to_string()));
    assert_eq!(out.reply.status, 500);
    assert_eq!(error_text(&out.reply), "Failed to initialize scanner: invalid uri character");
    assert!(!out.persist);
    assert!(!out.undo_client);
    assert_eq!(s.accounts().len(), 0);
}

#[test]
fn add_account_conflict_is_409_and_drops_client() {
    let mut s = store_with_entries();
    let out = add_account_handler(&mut s, add_req("t-addr", None), 2_000_000, Ok(()));
    assert_eq!(out.reply.status, 409);
    assert_eq!(error_text(&out.reply), "Account with label 't-addr' already exists");
    assert!(out.undo_client);
    assert!(!out.persist);
    let settled = out.settle(Ok(()));
    assert!(settled.undo_client);
    assert!(!settled.refresh_watch_count);
    assert_eq!(s.accounts().len(), 1);
}

#[test]
fn add_account_created_with_default_birthday() {
    let mut s = AccountStore::new("f".to_string());
    let out = add_account_handler(&mut s, add_req("new", None), 2_000_000, Ok(()));
    assert_eq!(out.reply.status, 201);
    assert!(out.persist);
    match &out.reply.body {
        ReplyBody::Created { label, birthday_height } => {
            assert_eq!(label, "new");
            assert_eq!(*birthday_height, Some(2_000_000));
        }
        other => panic!("unexpected {:?}", other),
    }
    let a = s.accounts().get("new").unwrap();
    assert_eq!(a.birthday_height, 2_000_000);
    assert_eq!(a.last_synced_height, 0);
    assert_eq!(a.balances, PoolBalances { transparent: 0, sapling: 0, orchard: 0 });
    let settled = out.settle(Ok(()));
    assert_eq!(settled.reply.status, 201);
    assert!(!settled.undo_client);
    assert!(settled.refresh_watch_count);
}

#[test]
fn add_account_failed_write_is_409_and_drops_client() {
    let mut s = AccountStore::new("f".to_string());
    let out = add_account_handler(&mut s, add_req("new", None), 2_000_000, Ok(()));
    let settled = out.settle(Err("Permission denied (os error 13)".to_string()));
    assert_eq!(settled.reply.status, 409);
    assert_eq!(error_text(&settled.reply), "Permission denied (os error 13)");
    assert!(settled.undo_client);
    assert!(!settled.refresh_watch_count);
}

#[test]
fn add_address_created_and_conflict() {
    let mut s = store_with_entries();
    let out = add_address_handler(&mut s, AddAddressRequest { label: "donations".to_string(), address: "t1d".to_string() });
    assert_eq!(out.reply.status, 201);
    match &out.reply.body {
        ReplyBody::Created { label, birthday_height } => {
            assert_eq!(label, "donations");
            assert_eq!(*birthday_height, None);
        }
        other => panic!("unexpected {:?}", other),
    }
    let out = add_address_handler(&mut s, AddAddressRequest { label: "my-wallet".to_string(), address: "t1d".to_string() });
    assert_eq!(out.reply.status, 409);
    assert_eq!(error_text(&out.reply), "Account with label 'my-wallet' already exists");
    assert!(!out.undo_client);
    assert_eq!(s.addresses().len(), 2);
}

#[test]
fn transactions_of_unknown_label_are_not_found() {
    let s = store_with_entries();
    let r = get_transactions_check(&s, "ghost").unwrap();
    assert_eq!(r.status, 404);
    assert_eq!(error_text(&r), "Account 'ghost' not found");
    assert!(get_transactions_check(&s, "t-addr").is_none());
    assert!(get_transactions_check(&s, "my-wallet").is_none());
}

#[test]
fn transactions_reply_counts() {
    let tx = TransactionDetail {
        txid: "abc123".to_string(),
        datetime: 1_710_187_200,
        status: "Confirmed(2500000)".to_string(),
        blockheight: 2_500_000,
        kind: "received".to_string(),
        value: 50_000_000,
        fee: None,
        recipient_address: None,
        pool_received: Some("orchard".to_string()),
        memos: vec!["Payment for March".to_string()],
    };
    let r = get_transactions_reply("my-wallet", Ok(vec![tx.clone(), tx]));
    assert_eq!(r.status, 200);
    match r.body {
        ReplyBody::Transactions { label, count, transactions } => {
            assert_eq!(label, "my-wallet");
            assert_eq!(count, 2);
            assert_eq!(transactions.len(), 2);
            assert_eq!(transactions[0].memos, vec!["Payment for March".to_string()]);
        }
        other => panic!("unexpected {:?}", other),
    }
    let r = get_transactions_reply("t-addr", Err("No client for account 't-addr'".to_string()));
    assert_eq!(r.status, 500);
    assert_eq!(error_text(&r), "Failed to retrieve transactions: No client for account 't-addr'");
}

#[test]
fn delete_then_lookup_is_not_found() {
    let mut s = store_with_entries();
    let out = delete_account_handler(&mut s, "my-wallet");
    assert_eq!(out.reply.status, 200);
    assert!(out.persist);
    match &out.reply.body {
        ReplyBody::Deleted { label } => assert_eq!(label, "my-wallet"),
        other => panic!("unexpected {:?}", other),
    }
    assert_eq!(get_account_handler(&s, "my-wallet").status, 404);
    let out = delete_account_handler(&mut s, "my-wallet");
    assert_eq!(out.reply.status, 404);
    assert_eq!(error_text(&out.reply), "No account with label 'my-wallet'");
    assert!(!out.persist);
}

#[test]
fn delete_failed_write_is_404() {
    let mut s = store_with_entries();
    let out = delete_account_handler(&mut s, "t-addr");
    let settled = out.settle(Err("disk full".to_string()));
    assert_eq!(settled.reply.status, 404);
    assert_eq!(error_text(&settled.reply), "disk full");
    assert!(!settled.undo_client);
}

#[test]
fn add_then_delete_restores_listing() {
    let mut s = store_with_entries();
    let before: Vec<String> = list_accounts_handler(&s).into_iter().map(|a| a.label).collect();
    add_account_handler(&mut s, add_req("temp", None), 1, Ok(()));
    delete_account_handler(&mut s, "temp");
    let after: Vec<String> = list_accounts_handler(&s).into_iter().map(|a| a.label).collect();
    assert_eq!(before, after);
}

#[test]
fn lookup_ignores_other_accounts_totals() {
    let mut s = store_with_entries();
    add_account_handler(&mut s, add_req("huge", None), 1, Ok(()));
    s.update_account_balances("huge", PoolBalances { transparent: u64::MAX, sapling: 1, orchard: 0 }, 1);
    assert!(!s.totals_fit());
    assert!(!s.account_total_fits("huge"));
    assert!(s.account_total_fits("my-wallet"));
    assert!(s.account_total_fits("t-addr"));
    assert!(s.account_total_fits("ghost"));
    assert_eq!(get_account_handler(&s, "my-wallet").status, 200);
    assert_eq!(get_account_handler(&s, "t-addr").status, 200);
    assert_eq!(get_account_handler(&s, "ghost").status, 404);
}
