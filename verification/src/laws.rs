//! Laws of the registry: what a read gives back after a write, what one
//! operation undoes of another, and what every operation keeps.

use vstd::prelude::*;
use crate::metrics::sentinel_metric_descs;
use crate::scanner::no_client_text;
use crate::api::{
    account_lookup_reply, scanner_failure_text, transactions_failure_text, account_not_found_text, balance_response_of, error_reply, listing,
    requested_account, requested_address, requested_birthday, shielded_response,
    transparent_response, AccountResponseView, AddAccountRequest, AddAddressRequest, ApiReplyView,
    BalanceResponse, ReplyBodyView,
};
use crate::store::{
    entries_to_table, label_taken_text, no_account_text, sync_lag, AccountStoreView, PoolBalances, ShieldedAccount,
    TransparentAddress,
};
use crate::table::{
    has_key, key_index, keys_of, lemma_key_index_unique, lemma_remove_lookups,
    lemma_store_lookups, lookup, stored, unique_keys,
};

verus! {

/// After a shielded account is added, looking its label up among the accounts
/// gives back that account.
pub proof fn law_added_account_is_found(v: AccountStoreView, account: ShieldedAccount)
    requires
        v.wf(),
        !v.label_taken(account.label@),
    ensures
        v.with_account(account).wf(),
        lookup(v.with_account(account).accounts, account.label@) == Some(account),
{
    let s = v.with_account(account).accounts;
    lemma_push_keeps_unique(v.accounts, (account.label@, account));
    lemma_key_index_unique(s, v.accounts.len() as int);
}

/// After a transparent address is added, looking its label up among the
/// addresses gives back that address.
pub proof fn law_added_address_is_found(v: AccountStoreView, address: TransparentAddress)
    requires
        v.wf(),
        !v.label_taken(address.label@),
    ensures
        v.with_address(address).wf(),
        lookup(v.with_address(address).addresses, address.label@) == Some(address),
{
    let s = v.with_address(address).addresses;
    lemma_push_keeps_unique(v.addresses, (address.label@, address));
    lemma_key_index_unique(s, v.addresses.len() as int);
}

/// Once a label is in use, a second addition under it is refused: the label
/// counts as taken after an account is added under it.
pub proof fn law_added_label_is_taken(
    v: AccountStoreView,
    account: ShieldedAccount,
    address: TransparentAddress,
)
    ensures
        v.with_account(account).label_taken(account.label@),
        v.with_address(address).label_taken(address.label@),
{
    let s = v.with_account(account).accounts;
    assert(s[v.accounts.len() as int].0 == account.label@);
    let t = v.with_address(address).addresses;
    assert(t[v.addresses.len() as int].0 == address.label@);
}

/// Removing a shielded account right after adding it gives back the registry
/// as it was.
pub proof fn law_remove_undoes_add_account(v: AccountStoreView, account: ShieldedAccount)
    requires
        v.wf(),
        !v.label_taken(account.label@),
    ensures
        v.with_account(account).without(account.label@) == v,
{
    let w = v.with_account(account);
    let s = w.accounts;
    lemma_push_keeps_unique(v.accounts, (account.label@, account));
    lemma_key_index_unique(s, v.accounts.len() as int);
    assert(s.remove(v.accounts.len() as int) =~= v.accounts);
}

/// Removing a transparent address right after adding it gives back the
/// registry as it was.
pub proof fn law_remove_undoes_add_address(v: AccountStoreView, address: TransparentAddress)
    requires
        v.wf(),
        !v.label_taken(address.label@),
    ensures
        v.with_address(address).without(address.label@) == v,
{
    let w = v.with_address(address);
    let s = w.addresses;
    lemma_push_keeps_unique(v.addresses, (address.label@, address));
    lemma_key_index_unique(s, v.addresses.len() as int);
    assert(!has_key(w.accounts, address.label@));
    assert(s.remove(v.addresses.len() as int) =~= v.addresses);
}

/// When no label is shared between an account and an address, a removed label
/// is free afterwards.
pub proof fn law_removed_label_is_free(v: AccountStoreView, label: Seq<char>)
    requires
        v.wf(),
        v.labels_disjoint(),
    ensures
        !v.without(label).label_taken(label),
{
    if has_key(v.accounts, label) {
        lemma_remove_lookups(v.accounts, key_index(v.accounts, label));
        assert(v.accounts[key_index(v.accounts, label)].0 == label);
        assert(!has_key(v.addresses, label));
    } else if has_key(v.addresses, label) {
        lemma_remove_lookups(v.addresses, key_index(v.addresses, label));
        assert(v.addresses[key_index(v.addresses, label)].0 == label);
    }
}

/// Removing a label that no entry carries leaves the registry as it was.
pub proof fn law_remove_absent_is_noop(v: AccountStoreView, label: Seq<char>)
    requires
        !v.label_taken(label),
    ensures
        v.without(label) == v,
{
}

/// Recording an account's balances keeps every label where it was, leaves the
/// addresses alone, and a lookup of the account then gives the new balances
/// and height with everything else of the account unchanged.
pub proof fn law_balance_update_is_read_back(
    v: AccountStoreView,
    label: Seq<char>,
    balances: PoolBalances,
    synced_height: u64,
)
    requires
        v.wf(),
        has_key(v.accounts, label),
    ensures
        ({
            let w = v.with_account_balances(label, balances, synced_height);
            let old_account = lookup(v.accounts, label)->Some_0;
            &&& w.wf()
            &&& keys_of(w.accounts) == keys_of(v.accounts)
            &&& w.addresses == v.addresses
            &&& lookup(w.accounts, label) == Some(
                ShieldedAccount { balances: balances, last_synced_height: synced_height, ..old_account },
            )
        }),
{
    let w = v.with_account_balances(label, balances, synced_height);
    let i = key_index(v.accounts, label);
    assert(v.accounts[i].0 == label);
    assert(keys_of(w.accounts) =~= keys_of(v.accounts)) by {
        assert forall|j: int| 0 <= j < w.accounts.len() implies #[trigger] keys_of(w.accounts)[j]
            == keys_of(v.accounts)[j] by {
            assert(w.accounts[j].0 == v.accounts[j].0);
        }
    }
    assert(unique_keys(w.accounts)) by {
        assert forall|a: int, b: int|
            0 <= a < w.accounts.len() && 0 <= b < w.accounts.len() && a != b implies #[trigger] w.accounts[a].0
            != #[trigger] w.accounts[b].0 by {
            assert(w.accounts[a].0 == v.accounts[a].0);
            assert(w.accounts[b].0 == v.accounts[b].0);
        }
    }
    lemma_key_index_unique(w.accounts, i);
}

/// Recording balances for a label that names no account leaves the registry
/// as it was.
pub proof fn law_balance_update_of_absent_is_noop(
    v: AccountStoreView,
    label: Seq<char>,
    balances: PoolBalances,
    synced_height: u64,
)
    requires
        !has_key(v.accounts, label),
    ensures
        v.with_account_balances(label, balances, synced_height) == v,
{
}

/// What a read gives back of a write: once an account requested under a free
/// label is added, looking the label up is answered with that account, its
/// balances all zero and nothing synced.
pub proof fn law_added_account_is_reported(
    v: AccountStoreView,
    req: AddAccountRequest,
    default_birthday: u64,
)
    requires
        v.wf(),
        !v.label_taken(req.label@),
    ensures
        account_lookup_reply(v.with_account(requested_account(req, default_birthday)), req.label@)
            == (ApiReplyView {
            status: 200,
            body: ReplyBodyView::Account(shielded_response(requested_account(req, default_birthday))),
        }),
{
    law_added_account_is_found(v, requested_account(req, default_birthday));
}

/// Once an address is added under a free label, looking the label up is
/// answered with that address.
pub proof fn law_added_address_is_reported(v: AccountStoreView, address: TransparentAddress)
    requires
        v.wf(),
        !v.label_taken(address.label@),
    ensures
        account_lookup_reply(v.with_address(address), address.label@) == (ApiReplyView {
            status: 200,
            body: ReplyBodyView::Account(transparent_response(address)),
        }),
{
    law_added_address_is_found(v, address);
    assert(!has_key(v.with_address(address).accounts, address.label@));
}

/// A refused request is answered as such: once a label is removed (with no
/// label shared between an account and an address), looking it up is
/// answered 404.
pub proof fn law_removed_label_is_not_found(v: AccountStoreView, label: Seq<char>)
    requires
        v.wf(),
        v.labels_disjoint(),
    ensures
        account_lookup_reply(v.without(label), label) == error_reply(
            404,
            account_not_found_text(label),
        ),
{
    law_removed_label_is_free(v, label);
}

/// The listing reports every account and every address, once each.
pub proof fn law_listing_counts_every_entry(v: AccountStoreView)
    ensures
        listing(v).len() == v.accounts.len() + v.addresses.len(),
{
}

/// The registry survives a write-out and read-back: its own entries, handed
/// back in order, rebuild exactly the same registry.
pub proof fn law_reload_in_order_restores(v: AccountStoreView)
    requires
        v.wf(),
    ensures
        (AccountStoreView {
            accounts: entries_to_table(v.accounts),
            addresses: entries_to_table(v.addresses),
            file_path: v.file_path,
        }) == v,
{
    lemma_unique_entries_rebuild(v.accounts);
    lemma_unique_entries_rebuild(v.addresses);
}

/// The registry survives a write-out and read-back in any order (as a map's
/// entries come back): the same entries, each label once, rebuild a registry
/// in which every label finds what it found before.
pub proof fn law_reload_any_order_restores(
    v: AccountStoreView,
    accounts: Seq<(Seq<char>, ShieldedAccount)>,
    addresses: Seq<(Seq<char>, TransparentAddress)>,
)
    requires
        v.wf(),
        unique_keys(accounts),
        unique_keys(addresses),
        forall|e: (Seq<char>, ShieldedAccount)| #[trigger] accounts.contains(e) <==> v.accounts.contains(e),
        forall|e: (Seq<char>, TransparentAddress)| #[trigger] addresses.contains(e) <==> v.addresses.contains(e),
    ensures
        forall|k: Seq<char>| #[trigger] lookup(entries_to_table(accounts), k) == lookup(v.accounts, k),
        forall|k: Seq<char>| #[trigger] lookup(entries_to_table(addresses), k) == lookup(v.addresses, k),
{
    lemma_unique_entries_rebuild(accounts);
    lemma_unique_entries_rebuild(addresses);
    lemma_same_entries_same_lookups(accounts, v.accounts);
    lemma_same_entries_same_lookups(addresses, v.addresses);
}

/// Entries whose labels are unique rebuild exactly themselves.
pub proof fn lemma_unique_entries_rebuild<T>(t: Seq<(Seq<char>, T)>)
    requires
        unique_keys(t),
    ensures
        entries_to_table(t) == t,
    decreases t.len(),
{
    if t.len() > 0 {
        let p = t.drop_last();
        assert forall|a: int, b: int|
            0 <= a < p.len() && 0 <= b < p.len() && a != b implies #[trigger] p[a].0 != #[trigger] p[b].0 by {
            assert(p[a] == t[a] && p[b] == t[b]);
        }
        lemma_unique_entries_rebuild(p);
        let l = t.len() - 1;
        if has_key(p, t[l].0) {
            let j = key_index(p, t[l].0);
            assert(p[j] == t[j]);
        }
        assert(p.push(t.last()) =~= t);
    }
}

/// Two label-unique tables holding the same entries answer every lookup
/// alike.
pub proof fn lemma_same_entries_same_lookups<T>(s: Seq<(Seq<char>, T)>, t: Seq<(Seq<char>, T)>)
    requires
        unique_keys(s),
        unique_keys(t),
        forall|e: (Seq<char>, T)| #[trigger] s.contains(e) <==> t.contains(e),
    ensures
        forall|k: Seq<char>| #[trigger] lookup(s, k) == lookup(t, k),
{
    assert forall|k: Seq<char>| #[trigger] lookup(s, k) == lookup(t, k) by {
        if has_key(s, k) {
            let i = key_index(s, k);
            assert(s[i].0 == k);
            assert(s.contains(s[i]));
            assert(t.contains(s[i]));
            let j = choose|j: int| 0 <= j < t.len() && t[j] == s[i];
            lemma_key_index_unique(t, j);
            lemma_key_index_unique(s, i);
        } else if has_key(t, k) {
            let i = key_index(t, k);
            assert(t[i].0 == k);
            assert(t.contains(t[i]));
            assert(s.contains(t[i]));
            let j = choose|j: int| 0 <= j < s.len() && s[j] == t[i];
            assert(s[j].0 == k);
        }
    }
}

/// Reported balances are the stored pools, each in its own field, and their
/// total is the sum of the three.
pub proof fn law_balances_reported_as_stored(b: PoolBalances)
    requires
        b.total_fits(),
    ensures
        balance_response_of(b).transparent_zatoshis == b.transparent,
        balance_response_of(b).sapling_zatoshis == b.sapling,
        balance_response_of(b).orchard_zatoshis == b.orchard,
        balance_response_of(b).total_zatoshis == b.transparent + b.sapling + b.orchard,
{
}

/// A shielded account is reported under its own label, as shielded, with its
/// pools as stored, their sum, and its synced height.
pub proof fn law_shielded_account_reported_as_stored(a: ShieldedAccount)
    requires
        a.balances.total_fits(),
    ensures
        shielded_response(a).label == a.label@,
        shielded_response(a).account_type == "shielded"@,
        shielded_response(a).balances.transparent_zatoshis == a.balances.transparent,
        shielded_response(a).balances.sapling_zatoshis == a.balances.sapling,
        shielded_response(a).balances.orchard_zatoshis == a.balances.orchard,
        shielded_response(a).balances.total_zatoshis == a.balances.transparent + a.balances.sapling
            + a.balances.orchard,
        shielded_response(a).last_synced_height == a.last_synced_height,
{
}

/// A transparent address is reported under its own label, as transparent,
/// with its whole balance in the transparent pool and as the total, and its
/// synced height.
pub proof fn law_transparent_address_reported_as_stored(t: TransparentAddress)
    ensures
        transparent_response(t).label == t.label@,
        transparent_response(t).account_type == "transparent"@,
        transparent_response(t).balances.transparent_zatoshis == t.balance_zatoshis,
        transparent_response(t).balances.sapling_zatoshis == 0,
        transparent_response(t).balances.orchard_zatoshis == 0,
        transparent_response(t).balances.total_zatoshis == t.balance_zatoshis,
        transparent_response(t).last_synced_height == t.last_synced_height,
{
}

/// The listing reports the i-th account at position i, with its pools as
/// stored and their sum, and the j-th address after all accounts, with its
/// balance as its transparent pool and total.
pub proof fn law_listing_reports_entries_as_stored(v: AccountStoreView)
    requires
        v.totals_fit(),
    ensures
        listing(v).len() == v.accounts.len() + v.addresses.len(),
        forall|i: int|
            0 <= i < v.accounts.len() ==> {
                let a = (#[trigger] v.accounts[i]).1;
                listing(v)[i] == AccountResponseView {
                    label: a.label@,
                    account_type: "shielded"@,
                    balances: BalanceResponse {
                        transparent_zatoshis: a.balances.transparent,
                        sapling_zatoshis: a.balances.sapling,
                        orchard_zatoshis: a.balances.orchard,
                        total_zatoshis: (a.balances.transparent + a.balances.sapling
                            + a.balances.orchard) as u64,
                    },
                    last_synced_height: a.last_synced_height,
                }
            },
        forall|j: int|
            0 <= j < v.addresses.len() ==> {
                let t = (#[trigger] v.addresses[j]).1;
                listing(v)[v.accounts.len() + j] == AccountResponseView {
                    label: t.label@,
                    account_type: "transparent"@,
                    balances: BalanceResponse {
                        transparent_zatoshis: t.balance_zatoshis,
                        sapling_zatoshis: 0,
                        orchard_zatoshis: 0,
                        total_zatoshis: t.balance_zatoshis,
                    },
                    last_synced_height: t.last_synced_height,
                }
            },
{
    assert forall|i: int| 0 <= i < v.accounts.len() implies {
        let a = (#[trigger] v.accounts[i]).1;
        listing(v)[i] == AccountResponseView {
            label: a.label@,
            account_type: "shielded"@,
            balances: BalanceResponse {
                transparent_zatoshis: a.balances.transparent,
                sapling_zatoshis: a.balances.sapling,
                orchard_zatoshis: a.balances.orchard,
                total_zatoshis: (a.balances.transparent + a.balances.sapling
                    + a.balances.orchard) as u64,
            },
            last_synced_height: a.last_synced_height,
        }
    } by {
        assert(v.accounts[i].1.balances.total_fits());
    }
    assert forall|j: int| 0 <= j < v.addresses.len() implies {
        let t = (#[trigger] v.addresses[j]).1;
        listing(v)[v.accounts.len() + j] == AccountResponseView {
            label: t.label@,
            account_type: "transparent"@,
            balances: BalanceResponse {
                transparent_zatoshis: t.balance_zatoshis,
                sapling_zatoshis: 0,
                orchard_zatoshis: 0,
                total_zatoshis: t.balance_zatoshis,
            },
            last_synced_height: t.last_synced_height,
        }
    } by {
    }
}

/// Looking up a label that a stored account carries answers 200 with that
/// account as stored: its label, its pools each in its own field, their sum,
/// and its synced height.
pub proof fn law_lookup_reports_account_as_stored(v: AccountStoreView, label: Seq<char>)
    requires
        v.account_total_fits(label),
        has_key(v.accounts, label),
    ensures
        ({
            let a = lookup(v.accounts, label)->Some_0;
            account_lookup_reply(v, label) == (ApiReplyView {
                status: 200,
                body: ReplyBodyView::Account(AccountResponseView {
                    label: a.label@,
                    account_type: "shielded"@,
                    balances: BalanceResponse {
                        transparent_zatoshis: a.balances.transparent,
                        sapling_zatoshis: a.balances.sapling,
                        orchard_zatoshis: a.balances.orchard,
                        total_zatoshis: (a.balances.transparent + a.balances.sapling
                            + a.balances.orchard) as u64,
                    },
                    last_synced_height: a.last_synced_height,
                }),
            })
            && a.balances.transparent + a.balances.sapling + a.balances.orchard <= u64::MAX
        }),
{
}

/// Looking up a label that only an address carries answers 200 with that
/// address as stored.
pub proof fn law_lookup_reports_address_as_stored(v: AccountStoreView, label: Seq<char>)
    requires
        !has_key(v.accounts, label),
        has_key(v.addresses, label),
    ensures
        ({
            let t = lookup(v.addresses, label)->Some_0;
            account_lookup_reply(v, label) == (ApiReplyView {
                status: 200,
                body: ReplyBodyView::Account(AccountResponseView {
                    label: t.label@,
                    account_type: "transparent"@,
                    balances: BalanceResponse {
                        transparent_zatoshis: t.balance_zatoshis,
                        sapling_zatoshis: 0,
                        orchard_zatoshis: 0,
                        total_zatoshis: t.balance_zatoshis,
                    },
                    last_synced_height: t.last_synced_height,
                }),
            })
        }),
{
}

/// An account is added with the birthday its request names, whatever the
/// configured default; the default is used only when the request names none.
/// Everything else of the new account comes from the request: its label and
/// viewing key, nothing synced, all pools zero.
pub proof fn law_requested_birthday_is_kept(req: AddAccountRequest, default_birthday: u64)
    ensures
        req.birthday_height matches Some(h) ==> requested_birthday(req, default_birthday) == h,
        req.birthday_height is None ==> requested_birthday(req, default_birthday)
            == default_birthday,
        requested_account(req, default_birthday).birthday_height == requested_birthday(
            req,
            default_birthday,
        ),
        requested_account(req, default_birthday).label == req.label,
        requested_account(req, default_birthday).viewing_key == req.viewing_key,
        requested_account(req, default_birthday).last_synced_height == 0,
        requested_account(req, default_birthday).balances == (PoolBalances {
            transparent: 0,
            sapling: 0,
            orchard: 0,
        }),
{
}

/// An address is added as requested: its label and address, nothing synced,
/// balance zero.
pub proof fn law_requested_address_is_kept(req: AddAddressRequest)
    ensures
        requested_address(req).label == req.label,
        requested_address(req).address == req.address,
        requested_address(req).last_synced_height == 0,
        requested_address(req).balance_zatoshis == 0,
{
}

/// Recording an address's balance keeps every label where it was, leaves the
/// accounts alone, and a lookup of the address then gives exactly the new
/// balance and height (not added to the old balance), with its label and
/// address unchanged.
pub proof fn law_address_balance_update_is_read_back(
    v: AccountStoreView,
    label: Seq<char>,
    balance: u64,
    synced_height: u64,
)
    requires
        v.wf(),
        has_key(v.addresses, label),
    ensures
        ({
            let w = v.with_address_balance(label, balance, synced_height);
            let old_address = lookup(v.addresses, label)->Some_0;
            &&& w.wf()
            &&& keys_of(w.addresses) == keys_of(v.addresses)
            &&& w.accounts == v.accounts
            &&& w.file_path == v.file_path
            &&& lookup(w.addresses, label) == Some(
                TransparentAddress {
                    label: old_address.label,
                    address: old_address.address,
                    last_synced_height: synced_height,
                    balance_zatoshis: balance,
                },
            )
            &&& forall|k: Seq<char>| k != label ==> #[trigger] lookup(w.addresses, k) == lookup(
                v.addresses,
                k,
            )
        }),
{
    let w = v.with_address_balance(label, balance, synced_height);
    let i = key_index(v.addresses, label);
    assert(v.addresses[i].0 == label);
    assert(keys_of(w.addresses) =~= keys_of(v.addresses)) by {
        assert forall|j: int| 0 <= j < w.addresses.len() implies #[trigger] keys_of(w.addresses)[j]
            == keys_of(v.addresses)[j] by {
            assert(w.addresses[j].0 == v.addresses[j].0);
        }
    }
    lemma_store_lookups(v.addresses, label, w.addresses[i].1);
    assert(w.addresses == stored(v.addresses, label, w.addresses[i].1));
}

/// An account's lag behind the tip is what separates its synced height from
/// the tip: added to the synced height it reaches the tip when the account is
/// behind (a never-synced account, at height zero, lags by the whole tip), and
/// it is zero when the account is not behind.
pub proof fn law_sync_lag_reaches_the_tip(chain_height: u64, synced_height: u64)
    ensures
        synced_height < chain_height ==> sync_lag(chain_height, synced_height) + synced_height
            == chain_height,
        synced_height >= chain_height ==> sync_lag(chain_height, synced_height) == 0,
        sync_lag(chain_height, 0) == chain_height,
{
}

/// The total of a pool breakdown is the sum of its three pools.
pub proof fn law_total_is_sum_of_pools(b: PoolBalances)
    ensures
        b.sum() == b.transparent + b.sapling + b.orchard,
        b.total_fits() <==> b.transparent + b.sapling + b.orchard <= u64::MAX,
{
}

/// A label is taken exactly when an account or an address carries it.
pub proof fn law_label_taken_by_either_kind(v: AccountStoreView, label: Seq<char>)
    ensures
        v.label_taken(label) <==> (exists|i: int|
            0 <= i < v.accounts.len() && #[trigger] v.accounts[i].0 == label) || (exists|j: int|
            0 <= j < v.addresses.len() && #[trigger] v.addresses[j].0 == label),
{
}

/// Removal takes the account carrying the label when there is one, leaving
/// the addresses alone (even one with the same label); otherwise it takes the
/// address carrying it, leaving the accounts alone. Every other label finds
/// what it found before.
pub proof fn law_remove_takes_account_first(v: AccountStoreView, label: Seq<char>)
    requires
        v.wf(),
    ensures
        has_key(v.accounts, label) ==> {
            let w = v.without(label);
            &&& w.wf()
            &&& !has_key(w.accounts, label)
            &&& w.addresses == v.addresses
            &&& w.accounts.len() + 1 == v.accounts.len()
            &&& forall|k: Seq<char>| k != label ==> #[trigger] lookup(w.accounts, k) == lookup(
                v.accounts,
                k,
            )
        },
        !has_key(v.accounts, label) && has_key(v.addresses, label) ==> {
            let w = v.without(label);
            &&& w.wf()
            &&& !has_key(w.addresses, label)
            &&& w.accounts == v.accounts
            &&& w.addresses.len() + 1 == v.addresses.len()
            &&& forall|k: Seq<char>| k != label ==> #[trigger] lookup(w.addresses, k) == lookup(
                v.addresses,
                k,
            )
        },
        v.without(label).file_path == v.file_path,
{
    if has_key(v.accounts, label) {
        let i = key_index(v.accounts, label);
        assert(v.accounts[i].0 == label);
        lemma_remove_lookups(v.accounts, i);
    } else if has_key(v.addresses, label) {
        let i = key_index(v.addresses, label);
        assert(v.addresses[i].0 == label);
        lemma_remove_lookups(v.addresses, i);
    }
}

/// Rebuilding from entries never yields a label twice.
pub proof fn lemma_rebuilt_labels_unique<T>(t: Seq<(Seq<char>, T)>)
    ensures
        unique_keys(entries_to_table(t)),
    decreases t.len(),
{
    if t.len() > 0 {
        lemma_rebuilt_labels_unique(t.drop_last());
        lemma_store_lookups(entries_to_table(t.drop_last()), t.last().0, t.last().1);
    }
}

/// Read-back entries are taken in order and a later entry takes the place of
/// an earlier one with the same label: after one more entry, its label finds
/// its value, and every other label finds what it found before.
pub proof fn law_reload_later_entry_wins<T>(t: Seq<(Seq<char>, T)>, e: (Seq<char>, T))
    ensures
        unique_keys(entries_to_table(t.push(e))),
        lookup(entries_to_table(t.push(e)), e.0) == Some(e.1),
        forall|k: Seq<char>| k != e.0 ==> #[trigger] lookup(entries_to_table(t.push(e)), k) == lookup(
            entries_to_table(t),
            k,
        ),
{
    lemma_rebuilt_labels_unique(t);
    assert(t.push(e).drop_last() =~= t);
    lemma_store_lookups(entries_to_table(t), e.0, e.1);
}

/// The labels of a table are its entries' labels, in order.
pub proof fn law_labels_in_order<T>(s: Seq<(Seq<char>, T)>)
    ensures
        keys_of(s).len() == s.len(),
        forall|i: int| 0 <= i < s.len() ==> #[trigger] keys_of(s)[i] == s[i].0,
{
}

/// The service exposes exactly the seven gauges its documentation lists, with
/// their help texts and label names.
pub proof fn law_exposed_metrics()
    ensures
        sentinel_metric_descs().len() == 7,
        sentinel_metric_descs()[0] == ("zcash_balance_zatoshis"@,
            "Balance per account per pool in zatoshis"@, seq!["account"@, "pool"@]),
        sentinel_metric_descs()[1] == ("zcash_total_balance_zec"@,
            "Total balance per account in ZEC"@, seq!["account"@]),
        sentinel_metric_descs()[2] == ("zcash_sync_height"@,
            "Last synced block height per account"@, seq!["account"@]),
        sentinel_metric_descs()[3] == ("zcash_chain_height"@,
            "Chain tip height from lightwalletd"@, Seq::<Seq<char>>::empty()),
        sentinel_metric_descs()[4] == ("zcash_sync_lag_blocks"@,
            "Number of blocks behind chain tip per account"@, seq!["account"@]),
        sentinel_metric_descs()[5] == ("zcash_last_sync_duration_seconds"@,
            "Duration of the last sync cycle in seconds"@, Seq::<Seq<char>>::empty()),
        sentinel_metric_descs()[6] == ("zcash_watched_accounts_total"@,
            "Total number of monitored accounts"@, Seq::<Seq<char>>::empty()),
{
}

/// The texts of refusals name the label they refuse.
pub proof fn law_refusal_texts(label: Seq<char>, cause: Seq<char>)
    ensures
        label_taken_text(label) == "Account with label '"@ + label + "' already exists"@,
        no_account_text(label) == "No account with label '"@ + label + "'"@,
        account_not_found_text(label) == "Account '"@ + label + "' not found"@,
        scanner_failure_text(cause) == "Failed to initialize scanner: "@ + cause,
        transactions_failure_text(cause) == "Failed to retrieve transactions: "@ + cause,
        no_client_text(label) == "No client for account '"@ + label + "'"@,
{
}

/// Appending an entry under a fresh label keeps labels unique.
pub proof fn lemma_push_keeps_unique<T>(s: Seq<(Seq<char>, T)>, e: (Seq<char>, T))
    requires
        unique_keys(s),
        !has_key(s, e.0),
    ensures
        unique_keys(s.push(e)),
{
    let t = s.push(e);
    assert forall|a: int, b: int|
        0 <= a < t.len() && 0 <= b < t.len() && a != b implies #[trigger] t[a].0 != #[trigger] t[b].0 by {
        if a < s.len() && b < s.len() {
            assert(s[a].0 != s[b].0);
        } else if a < s.len() {
            assert(s[a].0 == t[a].0);
        } else {
            assert(s[b].0 == t[b].0);
        }
    }
}

} // verus!
