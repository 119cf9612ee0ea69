//! The Prometheus metrics the service exposes: which gauges exist, under
//! which names and label sets, and which series an account owns.
//!
//! The gauges hold floating-point values; setting them is done by the
//! application. Here they are created, registered and pruned.

use vstd::prelude::*;
use vstd::string::*;
use crate::store::strings_view;

verus! {

/// `prometheus::Registry`, the set of registered collectors.
#[verifier::external_type_specification]
#[verifier::external_body]
pub struct ExRegistry(prometheus::Registry);

/// A family of gauges (`prometheus::GaugeVec`): one gauge per combination of
/// label values. Held behind an opaque struct, as Verus refuses to declare
/// `prometheus`'s generic metric vector (its parameter is bound by an outside
/// trait).
#[verifier::external_body]
pub struct GaugeFamily {
    pub inner: prometheus::GaugeVec,
}

/// A single gauge (`prometheus::Gauge`), held behind an opaque struct for the
/// same reason.
#[verifier::external_body]
pub struct SingleGauge {
    pub inner: prometheus::Gauge,
}

/// A metric's description: its name, its help text and its label names.
pub type MetricDesc = (Seq<char>, Seq<char>, Seq<Seq<char>>);

/// The descriptions of the collectors registered in a registry, in the order
/// they were registered.
pub uninterp spec fn registered(r: prometheus::Registry) -> Seq<MetricDesc>;

/// The description a gauge family was created with.
pub uninterp spec fn family_desc(g: GaugeFamily) -> MetricDesc;

/// The description a single gauge was created with.
pub uninterp spec fn gauge_desc(g: SingleGauge) -> MetricDesc;

/// Calls `prometheus::Registry::new`. Claims that the registry holds no
/// collector (the source builds it from `Default`, with empty maps).
#[verifier::external_body]
fn new_registry() -> (r: prometheus::Registry)
    ensures
        registered(r) == Seq::<MetricDesc>::empty(),
{
    prometheus::Registry::new()
}

/// Calls `prometheus::GaugeVec::new` with `Opts::new(name, help)` and the
/// label names. Claims that a created family carries that name, help and
/// label names; the error's text is not claimed.
#[verifier::external_body]
fn new_gauge_family(name: &str, help: &str, labels: &Vec<String>) -> (r: Result<GaugeFamily, String>)
    ensures
        r matches Ok(g) ==> family_desc(g) == (name@, help@, strings_view(labels@)),
{
    let label_names: Vec<&str> = labels.iter().map(|l| l.as_str()).collect();
    prometheus::GaugeVec::new(prometheus::Opts::new(name, help), &label_names)
        .map(|inner| GaugeFamily { inner })
        .map_err(|e| e.to_string())
}

/// Calls `prometheus::Gauge::new`. Claims that a created gauge carries that
/// name and help and no label names; the error's text is not claimed.
#[verifier::external_body]
fn new_gauge(name: &str, help: &str) -> (r: Result<SingleGauge, String>)
    ensures
        r matches Ok(g) ==> gauge_desc(g) == (name@, help@, Seq::<Seq<char>>::empty()),
{
    prometheus::Gauge::new(name, help).map(|inner| SingleGauge { inner }).map_err(|e| e.to_string())
}

/// Calls `prometheus::Registry::register` with (a handle on) the family.
/// Claims that on success the family's description is added to the
/// registered ones, and that on failure they are unchanged (the source adds
/// the collector and its descriptor ids only on success). The registry is
/// taken `&mut` though the call takes `&self`: every registration here goes
/// through these wrappers.
#[verifier::external_body]
fn register_family(registry: &mut prometheus::Registry, g: &GaugeFamily) -> (r: Result<(), String>)
    ensures
        r is Ok ==> registered(*final(registry)) == registered(*old(registry)).push(family_desc(*g)),
        r is Err ==> registered(*final(registry)) == registered(*old(registry)),
{
    registry.register(Box::new(g.inner.clone())).map_err(|e| e.to_string())
}

/// Calls `prometheus::Registry::register` with (a handle on) the single
/// gauge; claims as `register_family` does.
#[verifier::external_body]
fn register_gauge(registry: &mut prometheus::Registry, g: &SingleGauge) -> (r: Result<(), String>)
    ensures
        r is Ok ==> registered(*final(registry)) == registered(*old(registry)).push(gauge_desc(*g)),
        r is Err ==> registered(*final(registry)) == registered(*old(registry)),
{
    registry.register(Box::new(g.inner.clone())).map_err(|e| e.to_string())
}

/// Calls `prometheus::GaugeVec::remove_label_values`: drops the gauge of the
/// family with these label values, if there is one. The outcome is ignored,
/// and nothing is claimed: the family's series change through shared
/// references elsewhere, so no model of them is kept.
#[verifier::external_body]
fn remove_series(g: &GaugeFamily, values: &Vec<String>) {
    let vals: Vec<&str> = values.iter().map(|v| v.as_str()).collect();
    let _ = g.inner.remove_label_values(&vals);
}

/// The descriptions of the service's metrics, in registration order.
pub open spec fn sentinel_metric_descs() -> Seq<MetricDesc> {
    seq![
        balance_desc(),
        total_balance_desc(),
        sync_height_desc(),
        chain_height_desc(),
        sync_lag_desc(),
        last_sync_duration_desc(),
        watched_accounts_desc(),
    ]
}

/// Balance per account per pool in zatoshis.
pub open spec fn balance_desc() -> MetricDesc {
    (
        "zcash_balance_zatoshis"@,
        "Balance per account per pool in zatoshis"@,
        seq!["account"@, "pool"@],
    )
}

/// Total balance per account in ZEC.
pub open spec fn total_balance_desc() -> MetricDesc {
    ("zcash_total_balance_zec"@, "Total balance per account in ZEC"@, seq!["account"@])
}

/// Last synced block height per account.
pub open spec fn sync_height_desc() -> MetricDesc {
    ("zcash_sync_height"@, "Last synced block height per account"@, seq!["account"@])
}

/// Chain tip height from lightwalletd.
pub open spec fn chain_height_desc() -> MetricDesc {
    ("zcash_chain_height"@, "Chain tip height from lightwalletd"@, Seq::empty())
}

/// Blocks behind the chain tip per account.
pub open spec fn sync_lag_desc() -> MetricDesc {
    (
        "zcash_sync_lag_blocks"@,
        "Number of blocks behind chain tip per account"@,
        seq!["account"@],
    )
}

/// Duration of the last sync cycle.
pub open spec fn last_sync_duration_desc() -> MetricDesc {
    (
        "zcash_last_sync_duration_seconds"@,
        "Duration of the last sync cycle in seconds"@,
        Seq::empty(),
    )
}

/// Number of monitored accounts.
pub open spec fn watched_accounts_desc() -> MetricDesc {
    ("zcash_watched_accounts_total"@, "Total number of monitored accounts"@, Seq::empty())
}

/// All Prometheus metrics of the service.
pub struct SentinelMetrics {
    pub registry: prometheus::Registry,
    /// Balance per account per pool in zatoshis.
    pub balance_zatoshis: GaugeFamily,
    /// Total balance per account in ZEC.
    pub total_balance_zec: GaugeFamily,
    /// Last synced block height per account.
    pub sync_height: GaugeFamily,
    /// Chain tip height from lightwalletd.
    pub chain_height: SingleGauge,
    /// Blocks behind chain tip per account.
    pub sync_lag_blocks: GaugeFamily,
    /// Duration of last sync cycle in seconds.
    pub last_sync_duration_seconds: SingleGauge,
    /// Number of monitored accounts.
    pub watched_accounts_total: SingleGauge,
}

/// The label names of a per-account metric.
fn account_labels() -> (v: Vec<String>)
    ensures
        strings_view(v@) == seq!["account"@],
{
    let v = vec!["account".to_owned()];
    assert(strings_view(v@) =~= seq!["account"@]);
    v
}

/// The label names of a per-account, per-pool metric.
fn account_pool_labels() -> (v: Vec<String>)
    ensures
        strings_view(v@) == seq!["account"@, "pool"@],
{
    let v = vec!["account".to_owned(), "pool".to_owned()];
    assert(strings_view(v@) =~= seq!["account"@, "pool"@]);
    v
}

/// The label values of one account's series.
fn account_values(label: &str) -> (v: Vec<String>)
    ensures
        strings_view(v@) == seq![label@],
{
    let v = vec![label.to_owned()];
    assert(strings_view(v@) =~= seq![label@]);
    v
}

/// The label values of one account's series for one pool.
fn account_pool_values(label: &str, pool: &str) -> (v: Vec<String>)
    ensures
        strings_view(v@) == seq![label@, pool@],
{
    let v = vec![label.to_owned(), pool.to_owned()];
    assert(strings_view(v@) =~= seq![label@, pool@]);
    v
}

impl SentinelMetrics {
    /// Creates the service's seven gauges and registers them, in order, in a
    /// fresh registry; the text of the first failure otherwise.
    pub fn new() -> (r: Result<SentinelMetrics, String>)
        ensures
            r matches Ok(m) ==> {
                &&& registered(m.registry) == sentinel_metric_descs()
                &&& family_desc(m.balance_zatoshis) == balance_desc()
                &&& family_desc(m.total_balance_zec) == total_balance_desc()
                &&& family_desc(m.sync_height) == sync_height_desc()
                &&& gauge_desc(m.chain_height) == chain_height_desc()
                &&& family_desc(m.sync_lag_blocks) == sync_lag_desc()
                &&& gauge_desc(m.last_sync_duration_seconds) == last_sync_duration_desc()
                &&& gauge_desc(m.watched_accounts_total) == watched_accounts_desc()
            },
    {
        let mut registry = new_registry();

        let balance_zatoshis = match new_gauge_family(
            "zcash_balance_zatoshis",
            "Balance per account per pool in zatoshis",
            &account_pool_labels(),
        ) {
            Ok(g) => g,
            Err(e) => return Err(e),
        };
        match register_family(&mut registry, &balance_zatoshis) {
            Ok(()) => {},
            Err(e) => return Err(e),
        }

        let total_balance_zec = match new_gauge_family(
            "zcash_total_balance_zec",
            "Total balance per account in ZEC",
            &account_labels(),
        ) {
            Ok(g) => g,
            Err(e) => return Err(e),
        };
        match register_family(&mut registry, &total_balance_zec) {
            Ok(()) => {},
            Err(e) => return Err(e),
        }

        let sync_height = match new_gauge_family(
            "zcash_sync_height",
            "Last synced block height per account",
            &account_labels(),
        ) {
            Ok(g) => g,
            Err(e) => return Err(e),
        };
        match register_family(&mut registry, &sync_height) {
            Ok(()) => {},
            Err(e) => return Err(e),
        }

        let chain_height = match new_gauge("zcash_chain_height", "Chain tip height from lightwalletd") {
            Ok(g) => g,
            Err(e) => return Err(e),
        };
        match register_gauge(&mut registry, &chain_height) {
            Ok(()) => {},
            Err(e) => return Err(e),
        }

        let sync_lag_blocks = match new_gauge_family(
            "zcash_sync_lag_blocks",
            "Number of blocks behind chain tip per account",
            &account_labels(),
        ) {
            Ok(g) => g,
            Err(e) => return Err(e),
        };
        match register_family(&mut registry, &sync_lag_blocks) {
            Ok(()) => {},
            Err(e) => return Err(e),
        }

        let last_sync_duration_seconds = match new_gauge(
            "zcash_last_sync_duration_seconds",
            "Duration of the last sync cycle in seconds",
        ) {
            Ok(g) => g,
            Err(e) => return Err(e),
        };
        match register_gauge(&mut registry, &last_sync_duration_seconds) {
            Ok(()) => {},
            Err(e) => return Err(e),
        }

        let watched_accounts_total = match new_gauge(
            "zcash_watched_accounts_total",
            "Total number of monitored accounts",
        ) {
            Ok(g) => g,
            Err(e) => return Err(e),
        };
        match register_gauge(&mut registry, &watched_accounts_total) {
            Ok(()) => {},
            Err(e) => return Err(e),
        }

        assert(registered(registry) =~= sentinel_metric_descs());
        Ok(SentinelMetrics {
            registry,
            balance_zatoshis,
            total_balance_zec,
            sync_height,
            chain_height,
            sync_lag_blocks,
            last_sync_duration_seconds,
            watched_accounts_total,
        })
    }

    /// Removes all series of an account (when it is deleted): its balance in
    /// each of the three pools, its total, its sync height and its lag.
    pub fn remove_account_metrics(&self, label: &str) {
        remove_series(&self.balance_zatoshis, &account_pool_values(label, "transparent"));
        remove_series(&self.balance_zatoshis, &account_pool_values(label, "sapling"));
        remove_series(&self.balance_zatoshis, &account_pool_values(label, "orchard"));
        remove_series(&self.total_balance_zec, &account_values(label));
        remove_series(&self.sync_height, &account_values(label));
        remove_series(&self.sync_lag_blocks, &account_values(label));
    }
}

} // verus!
