use zcash_sentinel::metrics::SentinelMetrics;

fn family_names(m: &SentinelMetrics) -> Vec<String> {
    m.registry.gather().iter().map(|f| f.get_name().to_string()).collect()
}

fn fill(m: &SentinelMetrics, label: &str) {
    for pool in ["transparent", "sapling", "orchard"] {
        m.balance_zatoshis.inner.with_label_values(&[label, pool]).set(1.0);
    }
    m.total_balance_zec.inner.with_label_values(&[label]).set(1.0);
    m.sync_height.inner.with_label_values(&[label]).set(1.0);
    m.sync_lag_blocks.inner.with_label_values(&[label]).set(1.0);
}

#[test]
fn seven_gauges_are_registered() {
    let m = SentinelMetrics::new().unwrap();
    fill(&m, "a");
    let mut names = family_names(&m);
    names.sort();
    assert_eq!(
        names,
        vec![
            "zcash_balance_zatoshis",
            "zcash_chain_height",
            "zcash_last_sync_duration_seconds",
            "zcash_sync_height",
            "zcash_sync_lag_blocks",
            "zcash_total_balance_zec",
            "zcash_watched_accounts_total",
        ]
    );
    let balance = m
        .registry
        .gather()
        .into_iter()
        .find(|f| f.get_name() == "zcash_balance_zatoshis")
        .unwrap();
    assert_eq!(balance.get_help(), "Balance per account per pool in zatoshis");
    let labels: Vec<String> = balance.get_metric()[0].get_label().iter().map(|l| l.get_name().to_string()).collect();
    assert_eq!(labels, vec!["account".to_string(), "pool".to_string()]);
}

#[test]
fn removing_an_account_drops_only_its_series() {
    let m = SentinelMetrics::new().unwrap();
    fill(&m, "a");
    fill(&m, "b");
    m.remove_account_metrics("a");
    for f in m.registry.gather() {
        for metric in f.get_metric() {
            for l in metric.get_label() {
                if l.get_name() == "account" {
                    assert_eq!(l.get_value(), "b", "series of a left in {}", f.get_name());
                }
            }
        }
    }
    let balance = m.registry.gather().into_iter().find(|f| f.get_name() == "zcash_balance_zatoshis").unwrap();
    assert_eq!(balance.get_metric().len(), 3);
    // removing an account without series is harmless
    m.remove_account_metrics("nobody");
}
