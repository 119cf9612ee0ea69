//! The registry of watched shielded accounts and transparent addresses.
//!
//! Labels are the handle by which the API names an entry; a new entry is
//! refused when its label is already in use by an entry of either kind.

use vstd::prelude::*;
use vstd::string::*;
use crate::table::{has_key, key_index, keys_of, lookup, stored, unique_keys, LabelTable};

verus! {

/// Balance breakdown by pool, in zatoshis.
#[derive(Clone, Copy, Debug, PartialEq, Eq, Structural)]
pub struct PoolBalances {
    pub transparent: u64,
    pub sapling: u64,
    pub orchard: u64,
}

impl PoolBalances {
    /// The sum over the three pools, as a mathematical integer.
    pub open spec fn sum(self) -> int {
        self.transparent + self.sapling + self.orchard
    }

    /// Whether the sum over the three pools fits in a `u64`.
    pub open spec fn total_fits(self) -> bool {
        self.sum() <= u64::MAX
    }

    /// The total balance over all pools.
    pub fn total(&self) -> (t: u64)
        requires
            self.total_fits(),
        ensures
            t == self.sum(),
    {
        self.transparent + self.sapling + self.orchard
    }

    /// Whether `total` can be taken of these balances.
    pub fn total_is_representable(&self) -> (b: bool)
        ensures
            b == self.total_fits(),
    {
        match self.transparent.checked_add(self.sapling) {
            Some(ts) => ts.checked_add(self.orchard).is_some(),
            None => false,
        }
    }

    /// Balances from the per-pool totals a wallet reports; a pool for which no
    /// total is reported counts as zero.
    pub fn from_pool_totals(
        transparent: Option<u64>,
        sapling: Option<u64>,
        orchard: Option<u64>,
    ) -> (b: PoolBalances)
        ensures
            b.transparent == (match transparent {
                Some(z) => z,
                None => 0,
            }),
            b.sapling == (match sapling {
                Some(z) => z,
                None => 0,
            }),
            b.orchard == (match orchard {
                Some(z) => z,
                None => 0,
            }),
    {
        PoolBalances {
            transparent: match transparent {
                Some(z) => z,
                None => 0,
            },
            sapling: match sapling {
                Some(z) => z,
                None => 0,
            },
            orchard: match orchard {
                Some(z) => z,
                None => 0,
            },
        }
    }
}

impl Default for PoolBalances {
    fn default() -> (b: Self)
        ensures
            b.transparent == 0 && b.sapling == 0 && b.orchard == 0,
    {
        PoolBalances { transparent: 0, sapling: 0, orchard: 0 }
    }
}

/// A shielded account monitored via a viewing key.
#[derive(Clone, Debug)]
pub struct ShieldedAccount {
    pub label: String,
    pub viewing_key: String,
    pub birthday_height: u64,
    /// Last successfully synced block height.
    pub last_synced_height: u64,
    /// Balances per pool in zatoshis.
    pub balances: PoolBalances,
}

/// A transparent address monitored by scanning compact blocks.
#[derive(Clone, Debug)]
pub struct TransparentAddress {
    pub label: String,
    pub address: String,
    /// Last successfully synced block height.
    pub last_synced_height: u64,
    /// Balance in zatoshis.
    pub balance_zatoshis: u64,
}

/// Why the registry refused a change.
#[derive(Debug)]
pub enum StoreError {
    /// The label is already used by an account or an address.
    LabelTaken { label: String },
    /// No account or address carries the label.
    NotFound { label: String },
}

/// The text of a refused addition.
pub open spec fn label_taken_text(label: Seq<char>) -> Seq<char> {
    "Account with label '"@ + label + "' already exists"@
}

/// The text of a refused removal.
pub open spec fn no_account_text(label: Seq<char>) -> Seq<char> {
    "No account with label '"@ + label + "'"@
}

impl StoreError {
    /// The label that the refused request named.
    pub open spec fn label_view(&self) -> Seq<char> {
        match self {
            StoreError::LabelTaken { label } => label@,
            StoreError::NotFound { label } => label@,
        }
    }

    /// The human-readable text of the error.
    pub open spec fn text(&self) -> Seq<char> {
        match self {
            StoreError::LabelTaken { label } => label_taken_text(label@),
            StoreError::NotFound { label } => no_account_text(label@),
        }
    }

    /// The human-readable text of the error.
    pub fn message(&self) -> (m: String)
        ensures
            m@ == self.text(),
    {
        match self {
            StoreError::LabelTaken { label } => {
                let mut m = "Account with label '".to_owned();
                m.append(label.as_str());
                m.append("' already exists");
                m
            },
            StoreError::NotFound { label } => {
                let mut m = "No account with label '".to_owned();
                m.append(label.as_str());
                m.append("'");
                m
            },
        }
    }
}

/// What the registry holds: its accounts and addresses, each in insertion
/// order under its label, and the file it is persisted to.
pub struct AccountStoreView {
    pub accounts: Seq<(Seq<char>, ShieldedAccount)>,
    pub addresses: Seq<(Seq<char>, TransparentAddress)>,
    pub file_path: Seq<char>,
}

impl AccountStoreView {
    /// No label occurs twice among the accounts, nor among the addresses.
    pub open spec fn wf(self) -> bool {
        unique_keys(self.accounts) && unique_keys(self.addresses)
    }

    /// Whether an account or an address carries `label`.
    pub open spec fn label_taken(self, label: Seq<char>) -> bool {
        has_key(self.accounts, label) || has_key(self.addresses, label)
    }

    /// No label is carried both by an account and by an address.
    pub open spec fn labels_disjoint(self) -> bool {
        forall|k: Seq<char>| !(#[trigger] has_key(self.accounts, k) && has_key(self.addresses, k))
    }

    /// The registry with `account` added under its label.
    pub open spec fn with_account(self, account: ShieldedAccount) -> AccountStoreView {
        AccountStoreView {
            accounts: self.accounts.push((account.label@, account)),
            addresses: self.addresses,
            file_path: self.file_path,
        }
    }

    /// The registry with `address` added under its label.
    pub open spec fn with_address(self, address: TransparentAddress) -> AccountStoreView {
        AccountStoreView {
            accounts: self.accounts,
            addresses: self.addresses.push((address.label@, address)),
            file_path: self.file_path,
        }
    }

    /// The registry without the entry labelled `label`: the account if there
    /// is one, else the address.
    pub open spec fn without(self, label: Seq<char>) -> AccountStoreView {
        if has_key(self.accounts, label) {
            AccountStoreView {
                accounts: self.accounts.remove(key_index(self.accounts, label)),
                addresses: self.addresses,
                file_path: self.file_path,
            }
        } else if has_key(self.addresses, label) {
            AccountStoreView {
                accounts: self.accounts,
                addresses: self.addresses.remove(key_index(self.addresses, label)),
                file_path: self.file_path,
            }
        } else {
            self
        }
    }

    /// The registry with the balances and sync height of the account labelled
    /// `label` replaced (unchanged if there is no such account).
    pub open spec fn with_account_balances(
        self,
        label: Seq<char>,
        balances: PoolBalances,
        synced_height: u64,
    ) -> AccountStoreView {
        if has_key(self.accounts, label) {
            let i = key_index(self.accounts, label);
            let a = self.accounts[i].1;
            AccountStoreView {
                accounts: self.accounts.update(
                    i,
                    (
                        label,
                        ShieldedAccount {
                            balances: balances,
                            last_synced_height: synced_height,
                            ..a
                        },
                    ),
                ),
                addresses: self.addresses,
                file_path: self.file_path,
            }
        } else {
            self
        }
    }

    /// The registry with the balance and sync height of the address labelled
    /// `label` replaced (unchanged if there is no such address).
    pub open spec fn with_address_balance(
        self,
        label: Seq<char>,
        balance: u64,
        synced_height: u64,
    ) -> AccountStoreView {
        if has_key(self.addresses, label) {
            let i = key_index(self.addresses, label);
            let a = self.addresses[i].1;
            AccountStoreView {
                accounts: self.accounts,
                addresses: self.addresses.update(
                    i,
                    (
                        label,
                        TransparentAddress {
                            balance_zatoshis: balance,
                            last_synced_height: synced_height,
                            ..a
                        },
                    ),
                ),
                file_path: self.file_path,
            }
        } else {
            self
        }
    }

    /// The balances of the account labelled `label`, if there is one, can be
    /// totalled in a `u64`.
    pub open spec fn account_total_fits(self, label: Seq<char>) -> bool {
        match lookup(self.accounts, label) {
            Some(a) => a.balances.total_fits(),
            None => true,
        }
    }

    /// Every account's balances can be totalled in a `u64`.
    pub open spec fn totals_fit(self) -> bool {
        forall|i: int| 0 <= i < self.accounts.len() ==> (#[trigger] self.accounts[i]).1.balances.total_fits()
    }
}

/// Persistent storage for all watched accounts and addresses.
#[derive(Debug)]
pub struct AccountStore {
    accounts: LabelTable<ShieldedAccount>,
    addresses: LabelTable<TransparentAddress>,
    /// File path for persistence.
    file_path: String,
}

impl View for AccountStore {
    type V = AccountStoreView;

    closed spec fn view(&self) -> AccountStoreView {
        AccountStoreView {
            accounts: self.accounts@,
            addresses: self.addresses@,
            file_path: self.file_path@,
        }
    }
}

/// The texts of a sequence of strings.
pub open spec fn strings_view(v: Seq<String>) -> Seq<Seq<char>> {
    v.map_values(|l: String| l@)
}

/// How many blocks an account synced to `synced_height` lags behind the tip
/// `chain_height`; zero when it is not behind.
pub open spec fn sync_lag(chain_height: u64, synced_height: u64) -> u64 {
    if chain_height > synced_height {
        (chain_height - synced_height) as u64
    } else {
        0
    }
}

/// The store that the listed entries build when inserted in order, a later
/// entry taking the place of an earlier one with the same label.
pub open spec fn entries_to_table<T>(entries: Seq<(Seq<char>, T)>) -> Seq<(Seq<char>, T)>
    decreases entries.len(),
{
    if entries.len() == 0 {
        Seq::empty()
    } else {
        stored(entries_to_table(entries.drop_last()), entries.last().0, entries.last().1)
    }
}

/// The view of a vector of labelled entries.
pub open spec fn entries_view<T>(entries: Seq<(String, T)>) -> Seq<(Seq<char>, T)> {
    entries.map_values(|e: (String, T)| (e.0@, e.1))
}

/// Builds a table from labelled entries, in order; a later entry takes the
/// place of an earlier one with the same label.
fn table_from_entries<T>(entries: Vec<(String, T)>) -> (t: LabelTable<T>)
    ensures
        t.wf(),
        t@ == entries_to_table(entries_view(entries@)),
{
    let ghost all = entries_view(entries@);
    let mut t = LabelTable::new();
    let mut rest = entries;
    assert(all.take(0) =~= Seq::<(Seq<char>, T)>::empty());
    while rest.len() > 0
        invariant
            t.wf(),
            rest@.len() <= all.len(),
            t@ == entries_to_table(all.take(all.len() - rest@.len())),
            entries_view(rest@) == all.skip(all.len() - rest@.len()),
        decreases rest@.len(),
    {
        let ghost k = all.len() - rest@.len();
        let ghost before = rest@;
        let e = rest.remove(0);
        assert(entries_view(before)[0] == all.skip(k)[0]);
        assert(e.0@ == all[k].0 && e.1 == all[k].1);
        assert(all.take(k + 1).drop_last() =~= all.take(k));
        assert(all.take(k + 1).last() == all[k]);
        assert forall|j: int| 0 <= j < rest@.len() implies #[trigger] entries_view(rest@)[j]
            == all.skip(k + 1)[j] by {
            assert(rest@[j] == before[j + 1]);
            assert(entries_view(before)[j + 1] == all.skip(k)[j + 1]);
        }
        assert(entries_view(rest@) =~= all.skip(k + 1));
        t.upsert(e.0, e.1);
    }
    assert(all.take(all.len() as int) =~= all);
    t
}

impl AccountStore {
    /// The registry's invariant: no label occurs twice within a kind.
    pub open spec fn wf(&self) -> bool {
        self@.wf()
    }

    /// An empty registry persisted to `file_path`.
    pub fn new(file_path: String) -> (s: AccountStore)
        ensures
            s.wf(),
            s@.accounts == Seq::<(Seq<char>, ShieldedAccount)>::empty(),
            s@.addresses == Seq::<(Seq<char>, TransparentAddress)>::empty(),
            s@.file_path == file_path@,
    {
        AccountStore { accounts: LabelTable::new(), addresses: LabelTable::new(), file_path }
    }

    /// The registry as read back from its file: the parsed entries in order
    /// (a later entry takes the place of an earlier one with the same label),
    /// or an empty registry when there was nothing to read or it could not be
    /// parsed (`parsed` is `None`).
    pub fn from_parsed(
        file_path: String,
        parsed: Option<(Vec<(String, ShieldedAccount)>, Vec<(String, TransparentAddress)>)>,
    ) -> (s: AccountStore)
        ensures
            s.wf(),
            s@.file_path == file_path@,
            match parsed {
                Some((accounts, addresses)) => s@.accounts == entries_to_table(
                    entries_view(accounts@),
                ) && s@.addresses == entries_to_table(entries_view(addresses@)),
                None => s@.accounts.len() == 0 && s@.addresses.len() == 0,
            },
    {
        match parsed {
            Some((accounts, addresses)) => AccountStore {
                accounts: table_from_entries(accounts),
                addresses: table_from_entries(addresses),
                file_path,
            },
            None => AccountStore::new(file_path),
        }
    }

    /// The watched shielded accounts, by label.
    pub fn accounts(&self) -> (t: &LabelTable<ShieldedAccount>)
        ensures
            t@ == self@.accounts,
            t.wf() == unique_keys(self@.accounts),
    {
        &self.accounts
    }

    /// The watched transparent addresses, by label.
    pub fn addresses(&self) -> (t: &LabelTable<TransparentAddress>)
        ensures
            t@ == self@.addresses,
            t.wf() == unique_keys(self@.addresses),
    {
        &self.addresses
    }

    /// The file the registry is persisted to.
    pub fn file_path(&self) -> (p: &String)
        ensures
            p@ == self@.file_path,
    {
        &self.file_path
    }

    /// Whether an account or an address carries `label`.
    pub fn contains_label(&self, label: &str) -> (b: bool)
        requires
            self.wf(),
        ensures
            b == self@.label_taken(label@),
    {
        self.accounts.contains(label) || self.addresses.contains(label)
    }

    /// Adds a shielded account under its label; refused, with the registry
    /// unchanged, when an account or an address already carries that label.
    pub fn add_account(&mut self, account: ShieldedAccount) -> (r: Result<(), StoreError>)
        requires
            old(self).wf(),
        ensures
            final(self).wf(),
            r is Err <==> old(self)@.label_taken(account.label@),
            r matches Err(e) ==> e is LabelTaken && e.label_view() == account.label@ && final(self)@ == old(self)@,
            r is Ok ==> final(self)@ == old(self)@.with_account(account),
            old(self)@.labels_disjoint() ==> final(self)@.labels_disjoint(),
    {
        if self.accounts.contains(account.label.as_str()) || self.addresses.contains(
            account.label.as_str(),
        ) {
            return Err(StoreError::LabelTaken { label: account.label.clone() });
        }
        let key = account.label.clone();
        self.accounts.push_new(key, account);
        proof {
            assert forall|k: Seq<char>| old(self)@.labels_disjoint() implies !(#[trigger] has_key(
                self@.accounts,
                k,
            ) && has_key(self@.addresses, k)) by {
                if has_key(self@.accounts, k) {
                    if k == account.label@ {
                        assert(!has_key(old(self)@.addresses, k));
                    } else {
                        let j = key_index(self@.accounts, k);
                        assert(self@.accounts[j].0 == k);
                        assert(j < old(self)@.accounts.len());
                        assert(old(self)@.accounts[j].0 == k);
                        assert(has_key(old(self)@.accounts, k));
                    }
                }
            }
        }
        Ok(())
    }

    /// Adds a transparent address under its label; refused, with the registry
    /// unchanged, when an account or an address already carries that label.
    pub fn add_address(&mut self, addr: TransparentAddress) -> (r: Result<(), StoreError>)
        requires
            old(self).wf(),
        ensures
            final(self).wf(),
            r is Err <==> old(self)@.label_taken(addr.label@),
            r matches Err(e) ==> e is LabelTaken && e.label_view() == addr.label@ && final(self)@ == old(self)@,
            r is Ok ==> final(self)@ == old(self)@.with_address(addr),
            old(self)@.labels_disjoint() ==> final(self)@.labels_disjoint(),
    {
        if self.accounts.contains(addr.label.as_str()) || self.addresses.contains(
            addr.label.as_str(),
        ) {
            return Err(StoreError::LabelTaken { label: addr.label.clone() });
        }
        let key = addr.label.clone();
        self.addresses.push_new(key, addr);
        proof {
            assert forall|k: Seq<char>| old(self)@.labels_disjoint() implies !(has_key(
                self@.accounts,
                k,
            ) && #[trigger] has_key(self@.addresses, k)) by {
                if has_key(self@.addresses, k) {
                    if k == addr.label@ {
                        assert(!has_key(old(self)@.accounts, k));
                    } else {
                        let j = key_index(self@.addresses, k);
                        assert(self@.addresses[j].0 == k);
                        assert(j < old(self)@.addresses.len());
                        assert(old(self)@.addresses[j].0 == k);
                        assert(has_key(old(self)@.addresses, k));
                    }
                }
            }
        }
        Ok(())
    }

    /// Removes the account labelled `label`, or else the address so labelled;
    /// refused, with the registry unchanged, when neither exists.
    pub fn remove(&mut self, label: &str) -> (r: Result<(), StoreError>)
        requires
            old(self).wf(),
        ensures
            final(self).wf(),
            r is Err <==> !old(self)@.label_taken(label@),
            r matches Err(e) ==> e is NotFound && e.label_view() == label@,
            final(self)@ == old(self)@.without(label@),
    {
        if self.accounts.remove(label).is_some() {
            return Ok(());
        }
        if self.addresses.remove(label).is_some() {
            return Ok(());
        }
        Err(StoreError::NotFound { label: label.to_owned() })
    }

    /// Records the balances and sync height of the account labelled `label`.
    /// Returns whether there was such an account; without one the registry is
    /// unchanged.
    pub fn update_account_balances(
        &mut self,
        label: &str,
        balances: PoolBalances,
        synced_height: u64,
    ) -> (found: bool)
        requires
            old(self).wf(),
        ensures
            final(self).wf(),
            found == has_key(old(self)@.accounts, label@),
            final(self)@ == old(self)@.with_account_balances(label@, balances, synced_height),
    {
        match self.accounts.find(label) {
            Some(i) => {
                let (k, mut account) = self.accounts.remove_at(i);
                account.balances = balances;
                account.last_synced_height = synced_height;
                proof {
                    let s = old(self)@.accounts;
                    if has_key(self.accounts@, k@) {
                        let j = key_index(self.accounts@, k@);
                        let oj = if j < i { j } else { j + 1 };
                        assert(s[oj].0 == k@);
                    }
                }
                self.accounts.insert_at(i, k, account);
                assert(self@.accounts =~= old(self)@.with_account_balances(
                    label@,
                    balances,
                    synced_height,
                ).accounts);
                true
            },
            None => false,
        }
    }

    /// Records the balance and sync height of the address labelled `label`.
    /// Returns whether there was such an address; without one the registry is
    /// unchanged.
    pub fn update_address_balance(&mut self, label: &str, balance: u64, synced_height: u64) -> (found:
        bool)
        requires
            old(self).wf(),
        ensures
            final(self).wf(),
            found == has_key(old(self)@.addresses, label@),
            final(self)@ == old(self)@.with_address_balance(label@, balance, synced_height),
    {
        match self.addresses.find(label) {
            Some(i) => {
                let (k, mut addr) = self.addresses.remove_at(i);
                addr.balance_zatoshis = balance;
                addr.last_synced_height = synced_height;
                proof {
                    let s = old(self)@.addresses;
                    if has_key(self.addresses@, k@) {
                        let j = key_index(self.addresses@, k@);
                        let oj = if j < i { j } else { j + 1 };
                        assert(s[oj].0 == k@);
                    }
                }
                self.addresses.insert_at(i, k, addr);
                assert(self@.addresses =~= old(self)@.with_address_balance(
                    label@,
                    balance,
                    synced_height,
                ).addresses);
                true
            },
            None => false,
        }
    }

    /// The labels of the shielded accounts, in order.
    pub fn account_labels(&self) -> (labels: Vec<String>)
        ensures
            strings_view(labels@) == keys_of(self@.accounts),
    {
        let n = self.accounts.len();
        let mut labels: Vec<String> = Vec::new();
        let mut i: usize = 0;
        while i < n
            invariant
                n == self@.accounts.len(),
                i <= n,
                labels@.len() == i,
                strings_view(labels@) == keys_of(self@.accounts).take(i as int),
            decreases n - i,
        {
            let ghost prev = labels@;
            let l = self.accounts.key_at(i).clone();
            labels.push(l);
            assert forall|j: int| 0 <= j <= i implies #[trigger] strings_view(labels@)[j] == keys_of(self@.accounts).take(i + 1)[j] by {
                if j < i {
                    assert(labels@[j] == prev[j]);
                    assert(strings_view(prev)[j] == keys_of(self@.accounts).take(
                        i as int,
                    )[j]);
                }
            }
            assert(strings_view(labels@) =~= keys_of(self@.accounts).take(i + 1));
            i = i + 1;
        }
        assert(keys_of(self@.accounts).take(n as int) =~= keys_of(self@.accounts));
        labels
    }

    /// How many blocks each shielded account lags behind the chain tip
    /// `chain_height` (zero when it is not behind), by label and in order;
    /// `None` when the tip is unknown (`chain_height` is zero).
    pub fn sync_lags(&self, chain_height: u64) -> (r: Option<Vec<(String, u64)>>)
        ensures
            chain_height == 0 ==> r is None,
            chain_height > 0 ==> (r matches Some(lags) && lags@.len() == self@.accounts.len()
                && forall|i: int|
                0 <= i < lags@.len() ==> (#[trigger] lags@[i]).0@ == self@.accounts[i].0
                    && lags@[i].1 == sync_lag(chain_height, self@.accounts[i].1.last_synced_height)),
    {
        if chain_height == 0 {
            return None;
        }
        let n = self.accounts.len();
        let mut lags: Vec<(String, u64)> = Vec::new();
        let mut i: usize = 0;
        while i < n
            invariant
                n == self@.accounts.len(),
                i <= n,
                lags@.len() == i,
                forall|j: int|
                    0 <= j < i ==> (#[trigger] lags@[j]).0@ == self@.accounts[j].0 && lags@[j].1
                        == sync_lag(chain_height, self@.accounts[j].1.last_synced_height),
            decreases n - i,
        {
            let l = self.accounts.key_at(i).clone();
            let lag = chain_height.saturating_sub(self.accounts.value_at(i).last_synced_height);
            lags.push((l, lag));
            i = i + 1;
        }
        Some(lags)
    }

    /// Whether the balances of the account labelled `label`, if there is one,
    /// can be totalled in a `u64`.
    pub fn account_total_fits(&self, label: &str) -> (b: bool)
        requires
            self.wf(),
        ensures
            b == self@.account_total_fits(label@),
    {
        match self.accounts.get(label) {
            Some(a) => a.balances.total_is_representable(),
            None => true,
        }
    }

    /// Whether every account's balances can be totalled in a `u64`.
    pub fn totals_fit(&self) -> (b: bool)
        ensures
            b == self@.totals_fit(),
    {
        let n = self.accounts.len();
        let mut i: usize = 0;
        while i < n
            invariant
                n == self@.accounts.len(),
                i <= n,
                forall|j: int| 0 <= j < i ==> (#[trigger] self@.accounts[j]).1.balances.total_fits(),
            decreases n - i,
        {
            if !self.accounts.value_at(i).balances.total_is_representable() {
                return false;
            }
            i = i + 1;
        }
        true
    }
}

} // verus!
