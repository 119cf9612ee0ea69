//! The service configuration, as read from its TOML file.

use vstd::prelude::*;

verus! {

/// The whole configuration.
#[derive(Clone, Debug)]
pub struct Config {
    pub lightwalletd: LightwalletdConfig,
    pub server: ServerConfig,
    pub scanner: ScannerConfig,
    pub storage: StorageConfig,
}

/// Where the light wallet backend listens.
#[derive(Clone, Debug)]
pub struct LightwalletdConfig {
    pub endpoint: String,
}

/// Where the metrics and management servers listen.
#[derive(Clone, Debug)]
pub struct ServerConfig {
    pub metrics_bind: String,
    pub api_bind: String,
}

/// How often to sync, and from which height a new account is scanned when its
/// request names none.
#[derive(Clone, Debug)]
pub struct ScannerConfig {
    pub poll_interval_secs: u64,
    pub default_birthday_height: u64,
}

/// Where the registry is persisted.
#[derive(Clone, Debug)]
pub struct StorageConfig {
    pub accounts_file: String,
}

} // verus!
