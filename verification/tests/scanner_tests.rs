use zcash_sentinel::config::{
    Config, LightwalletdConfig, ScannerConfig, ServerConfig, StorageConfig,
};
use zcash_sentinel::scanner::{chain_height_or_zero, ClientPlan, Scanner};

fn config(endpoint: &str, accounts_file: &str) -> Config {
    Config {
        lightwalletd: LightwalletdConfig { endpoint: endpoint.to_string() },
        server: ServerConfig { metrics_bind: "m".to_string(), api_bind: "a".to_string() },
        scanner: ScannerConfig { poll_interval_secs: 60, default_birthday_height: 2_000_000 },
        storage: StorageConfig { accounts_file: accounts_file.to_string() },
    }
}

#[test]
fn wallets_live_beside_the_registry_file() {
    let s: Scanner<u32> = Scanner::new(config("http://lwd:9067", "/var/lib/zcash-sentinel/accounts.json"));
    assert_eq!(s.data_dir(), "/var/lib/zcash-sentinel/wallets");
    let s: Scanner<u32> = Scanner::new(config("http://lwd:9067", "accounts.json"));
    assert_eq!(s.data_dir(), "wallets");
    let s: Scanner<u32> = Scanner::new(config("http://lwd:9067", ""));
    assert_eq!(s.data_dir(), "/var/lib/zcash-sentinel/wallets");
    assert_eq!(s.client_count(), 0);
}

#[test]
fn prepare_client_for_new_label() {
    let s: Scanner<u32> = Scanner::new(config("http://lightwalletd:9067", "/data/accounts.json"));
    match s.prepare_client("my-wallet") {
        ClientPlan::Create { uri, wallet_dir } => {
            assert_eq!(uri.to_string(), "http://lightwalletd:9067/");
            assert_eq!(wallet_dir, "/data/wallets/my-wallet");
        }
        other => panic!("unexpected {:?}", other),
    }
}

#[test]
fn prepare_client_with_bad_endpoint() {
    let s: Scanner<u32> = Scanner::new(config("not a uri", "/data/accounts.json"));
    match s.prepare_client("x") {
        ClientPlan::BadEndpoint { message } => assert!(!message.is_empty()),
        other => panic!("unexpected {:?}", other),
    }
}

#[test]
fn existing_client_is_kept() {
    let mut s: Scanner<u32> = Scanner::new(config("not a uri", "/data/accounts.json"));
    s.add_client("a", 1);
    assert!(s.has_client("a"));
    assert!(matches!(s.prepare_client("a"), ClientPlan::Ready));
    assert_eq!(*s.client("a").unwrap(), 1);
    s.add_client("a", 2);
    assert_eq!(s.client_count(), 1);
    assert_eq!(*s.client("a").unwrap(), 2);
}

#[test]
fn missing_client_is_an_error() {
    let mut s: Scanner<u32> = Scanner::new(config("http://l:1", "/d/a.json"));
    assert_eq!(s.client("x").unwrap_err(), "No client for account 'x'");
    assert_eq!(s.take_client("x").unwrap_err(), "No client for account 'x'");
}

#[test]
fn take_and_remove_clients() {
    let mut s: Scanner<u32> = Scanner::new(config("http://l:1", "/d/a.json"));
    assert!(s.first_client().is_none());
    s.add_client("a", 1);
    s.add_client("b", 2);
    assert_eq!(s.first_client(), Some(&1));
    assert_eq!(s.take_client("a").unwrap(), 1);
    assert!(!s.has_client("a"));
    assert_eq!(s.first_client(), Some(&2));
    s.remove_client("b");
    s.remove_client("b");
    assert_eq!(s.client_count(), 0);
}

#[test]
fn unknown_chain_height_is_zero() {
    assert_eq!(chain_height_or_zero(None), 0);
    assert_eq!(chain_height_or_zero(Some(2_500_000)), 2_500_000);
}

#[test]
fn first_label_names_the_first_client() {
    let mut s: Scanner<u32> = Scanner::new(config("http://l:1", "/d/a.json"));
    assert!(s.first_label().is_none());
    s.add_client("a", 1);
    s.add_client("b", 2);
    assert_eq!(s.first_label().unwrap(), "a");
}

#[test]
fn scanner_keeps_its_configuration() {
    let s: Scanner<u32> = Scanner::new(config("http://lwd:9067", "/d/accounts.json"));
    assert_eq!(s.config().lightwalletd.endpoint, "http://lwd:9067");
    assert_eq!(s.config().storage.accounts_file, "/d/accounts.json");
    assert_eq!(s.config().scanner.default_birthday_height, 2_000_000);
}

#[test]
fn removing_a_client_leaves_the_others() {
    let mut s: Scanner<u32> = Scanner::new(config("http://l:1", "/d/a.json"));
    s.add_client("a", 1);
    s.add_client("b", 2);
    s.add_client("c", 3);
    s.remove_client("b");
    assert!(!s.has_client("b"));
    assert_eq!(*s.client("a").unwrap(), 1);
    assert_eq!(*s.client("c").unwrap(), 3);
}

#[test]
fn bad_endpoint_message_is_the_uri_error() {
    let s: Scanner<u32> = Scanner::new(config("http://exa mple.com", "/d/a.json"));
    let expected = "http://exa mple.com".parse::<http::Uri>().unwrap_err().to_string();
    match s.prepare_client("x") {
        ClientPlan::BadEndpoint { message } => assert_eq!(message, expected),
        other => panic!("unexpected {:?}", other),
    }
}
