//! Bookkeeping of the light-client scanner: one client per watched shielded
//! account, where each client's wallet lives, and the chain height that a
//! client reports.

use vstd::prelude::*;
use vstd::string::*;
use crate::config::Config;
use crate::outside::{
    endpoint_uri, invalid_uri_display, invalid_uri_text, join_path, parent_path, parse_uri,
    path_join, path_parent, uri_accepts, uri_parse_error,
};
use crate::table::{has_key, key_index, lookup, unique_keys, LabelTable};

verus! {

/// A single value transfer (transaction detail) of an account.
#[derive(Clone, Debug)]
pub struct TransactionDetail {
    pub txid: String,
    pub datetime: u32,
    pub status: String,
    pub blockheight: u64,
    pub kind: String,
    pub value: u64,
    pub fee: Option<u64>,
    pub recipient_address: Option<String>,
    pub pool_received: Option<String>,
    pub memos: Vec<String>,
}

/// Where wallet data goes when the registry file names no parent directory.
pub open spec fn fallback_data_root() -> Seq<char> {
    "/var/lib/zcash-sentinel"@
}

/// The directory under which each account's wallet gets a subdirectory: the
/// `wallets` directory beside the registry file.
pub open spec fn wallet_root(accounts_file: Seq<char>) -> Seq<char> {
    let parent = match path_parent(accounts_file) {
        Some(p) => p,
        None => fallback_data_root(),
    };
    path_join(parent, "wallets"@)
}

/// The text of a request for a client that does not exist.
pub open spec fn no_client_text(label: Seq<char>) -> Seq<char> {
    "No client for account '"@ + label + "'"@
}

/// What must happen before an account can be scanned.
#[derive(Debug)]
pub enum ClientPlan {
    /// The account already has a client; nothing to do.
    Ready,
    /// A client must be created for the wallet in `wallet_dir`, talking to the
    /// backend at `uri`.
    Create { uri: http::Uri, wallet_dir: String },
    /// The configured backend endpoint is not a URI.
    BadEndpoint { message: String },
}

/// What the scanner holds: the configuration it was made with, its clients
/// by label, and the wallet root.
pub struct ScannerView<C> {
    pub config: Config,
    pub clients: Seq<(Seq<char>, C)>,
    pub data_dir: Seq<char>,
}

impl<C> ScannerView<C> {
    /// The configured backend endpoint.
    pub open spec fn endpoint(self) -> Seq<char> {
        self.config.lightwalletd.endpoint@
    }
}

/// Manages one light client per watched account.
#[derive(Debug)]
pub struct Scanner<C> {
    config: Config,
    /// The client of each account, by label.
    clients: LabelTable<C>,
    /// Base directory for wallet data (each account gets a subdirectory).
    data_dir: String,
}

impl<C> View for Scanner<C> {
    type V = ScannerView<C>;

    closed spec fn view(&self) -> ScannerView<C> {
        ScannerView {
            config: self.config,
            clients: self.clients@,
            data_dir: self.data_dir@,
        }
    }
}

impl<C> Scanner<C> {
    /// The scanner's invariant: one client per label.
    pub open spec fn wf(&self) -> bool {
        unique_keys(self@.clients)
    }

    /// A scanner without clients, keeping wallets beside the registry file.
    pub fn new(config: Config) -> (s: Self)
        ensures
            s.wf(),
            s@.clients.len() == 0,
            s@.config == config,
            s@.data_dir == wallet_root(config.storage.accounts_file@),
    {
        let parent = match parent_path(config.storage.accounts_file.as_str()) {
            Some(p) => p,
            None => "/var/lib/zcash-sentinel".to_owned(),
        };
        let data_dir = join_path(parent.as_str(), "wallets");
        Scanner { config, clients: LabelTable::new(), data_dir }
    }

    /// The configuration the scanner was made with.
    pub fn config(&self) -> (c: &Config)
        ensures
            *c == self@.config,
    {
        &self.config
    }

    /// The directory under which wallets are kept.
    pub fn data_dir(&self) -> (d: &String)
        ensures
            d@ == self@.data_dir,
    {
        &self.data_dir
    }

    /// The number of clients.
    pub fn client_count(&self) -> (n: usize)
        ensures
            n == self@.clients.len(),
    {
        self.clients.len()
    }

    /// Whether the account labelled `label` has a client.
    pub fn has_client(&self, label: &str) -> (b: bool)
        requires
            self.wf(),
        ensures
            b == has_key(self@.clients, label@),
    {
        self.clients.contains(label)
    }

    /// What initializing a client for `label` takes: nothing if it has one;
    /// else the backend URI and the account's wallet directory (`label` under
    /// the wallet root), unless the configured endpoint is not a URI.
    pub fn prepare_client(&self, label: &str) -> (p: ClientPlan)
        requires
            self.wf(),
        ensures
            has_key(self@.clients, label@) ==> p is Ready,
            !has_key(self@.clients, label@) && !uri_accepts(self@.endpoint()) ==> (p matches ClientPlan::BadEndpoint { message } && message@ == invalid_uri_display(uri_parse_error(self@.endpoint()))),
            !has_key(self@.clients, label@) && uri_accepts(self@.endpoint()) ==> (p matches ClientPlan::Create { uri, wallet_dir } && uri == endpoint_uri(self@.endpoint()) && wallet_dir@ == path_join(self@.data_dir, label@)),
    {
        if self.clients.contains(label) {
            return ClientPlan::Ready;
        }
        match parse_uri(self.config.lightwalletd.endpoint.as_str()) {
            Ok(uri) => {
                let wallet_dir = join_path(self.data_dir.as_str(), label);
                ClientPlan::Create { uri, wallet_dir }
            },
            Err(e) => ClientPlan::BadEndpoint { message: invalid_uri_text(&e) },
        }
    }

    /// Stores `client` as the client of `label`, in place of any it had.
    pub fn add_client(&mut self, label: &str, client: C)
        requires
            old(self).wf(),
        ensures
            final(self).wf(),
            final(self)@.config == old(self)@.config,
            final(self)@.data_dir == old(self)@.data_dir,
            lookup(final(self)@.clients, label@) == Some(client),
            has_key(old(self)@.clients, label@) ==> final(self)@.clients == old(self)@.clients.update(
                key_index(old(self)@.clients, label@),
                (label@, client),
            ),
            !has_key(old(self)@.clients, label@) ==> final(self)@.clients == old(self)@.clients.push(
                (label@, client),
            ),
            forall|k: Seq<char>| k != label@ ==> #[trigger] lookup(final(self)@.clients, k) == lookup(
                old(self)@.clients,
                k,
            ),
    {
        self.clients.upsert(label.to_owned(), client);
    }

    /// Drops the client of `label`, if it has one.
    pub fn remove_client(&mut self, label: &str)
        requires
            old(self).wf(),
        ensures
            final(self).wf(),
            final(self)@.config == old(self)@.config,
            final(self)@.data_dir == old(self)@.data_dir,
            has_key(old(self)@.clients, label@) ==> final(self)@.clients == old(self)@.clients.remove(
                key_index(old(self)@.clients, label@),
            ),
            !has_key(old(self)@.clients, label@) ==> final(self)@.clients == old(self)@.clients,
            !has_key(final(self)@.clients, label@),
            forall|k: Seq<char>| k != label@ ==> #[trigger] lookup(final(self)@.clients, k) == lookup(
                old(self)@.clients,
                k,
            ),
    {
        let _ = self.clients.remove(label);
    }

    /// The client of `label`; an error naming the account when it has none.
    pub fn client(&self, label: &str) -> (r: Result<&C, String>)
        requires
            self.wf(),
        ensures
            r matches Ok(c) ==> lookup(self@.clients, label@) == Some(*c),
            r matches Err(m) ==> lookup(self@.clients, label@) is None && m@ == no_client_text(label@),
    {
        match self.clients.get(label) {
            Some(c) => Ok(c),
            None => {
                let mut m = "No client for account '".to_owned();
                m.append(label);
                m.append("'");
                Err(m)
            },
        }
    }

    /// Takes the client of `label` out of the scanner, for work that needs it
    /// by value; an error naming the account when it has none (the scanner is
    /// then unchanged).
    pub fn take_client(&mut self, label: &str) -> (r: Result<C, String>)
        requires
            old(self).wf(),
        ensures
            final(self).wf(),
            final(self)@.config == old(self)@.config,
            final(self)@.data_dir == old(self)@.data_dir,
            r matches Ok(c) ==> lookup(old(self)@.clients, label@) == Some(c) && final(self)@.clients
                == old(self)@.clients.remove(key_index(old(self)@.clients, label@)),
            r matches Err(m) ==> lookup(old(self)@.clients, label@) is None && m@ == no_client_text(
                label@,
            ) && final(self)@.clients == old(self)@.clients,
            !has_key(final(self)@.clients, label@),
            forall|k: Seq<char>| k != label@ ==> #[trigger] lookup(final(self)@.clients, k) == lookup(
                old(self)@.clients,
                k,
            ),
    {
        match self.clients.remove(label) {
            Some(c) => Ok(c),
            None => {
                let mut m = "No client for account '".to_owned();
                m.append(label);
                m.append("'");
                Err(m)
            },
        }
    }

    /// The label of the first client, if there is one.
    pub fn first_label(&self) -> (r: Option<&String>)
        ensures
            self@.clients.len() == 0 ==> r is None,
            self@.clients.len() > 0 ==> (r matches Some(l) && l@ == self@.clients[0].0),
    {
        if self.clients.len() == 0 {
            None
        } else {
            Some(self.clients.key_at(0))
        }
    }

    /// Some client, to ask the backend for the chain tip: the first one made.
    pub fn first_client(&self) -> (r: Option<&C>)
        ensures
            self@.clients.len() == 0 ==> r is None,
            self@.clients.len() > 0 ==> r == Some(&self@.clients[0].1),
    {
        self.clients.first()
    }
}

/// The chain tip height a client reported, or zero when it could report none
/// (zero stands for an unknown tip).
pub fn chain_height_or_zero(reported: Option<u64>) -> (h: u64)
    ensures
        h == (match reported {
            Some(x) => x,
            None => 0,
        }),
{
    match reported {
        Some(x) => x,
        None => 0,
    }
}

} // verus!
