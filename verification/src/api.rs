//! The management API's requests, responses and decisions: what each request
//! does to the registry and what it is answered.
//!
//! Each handler here takes, as plain values, the outcome of any work done
//! elsewhere (initializing a scanner client, fetching transactions,
//! persisting the registry) and decides the reply.

use vstd::prelude::*;
use vstd::string::*;
use crate::config::Config;
use crate::scanner::TransactionDetail;
use crate::store::{
    label_taken_text, AccountStore, AccountStoreView, PoolBalances, ShieldedAccount, StoreError,
    TransparentAddress,
};
use crate::table::{has_key, key_index, lemma_key_index_unique, lookup};

verus! {

/// HTTP status: the request succeeded.
pub const STATUS_OK: u16 = 200;

/// HTTP status: an entry was created.
pub const STATUS_CREATED: u16 = 201;

/// HTTP status: no such entry.
pub const STATUS_NOT_FOUND: u16 = 404;

/// HTTP status: the label is in use.
pub const STATUS_CONFLICT: u16 = 409;

/// HTTP status: work outside the registry failed.
pub const STATUS_INTERNAL_ERROR: u16 = 500;

/// A request to watch a shielded account.
#[derive(Clone, Debug)]
pub struct AddAccountRequest {
    pub label: String,
    pub viewing_key: String,
    pub birthday_height: Option<u64>,
}

/// A request to watch a transparent address.
#[derive(Clone, Debug)]
pub struct AddAddressRequest {
    pub label: String,
    pub address: String,
}

/// An account's balances as the API reports them, in zatoshis.
#[derive(Clone, Copy, Debug, PartialEq, Eq, Structural)]
pub struct BalanceResponse {
    pub transparent_zatoshis: u64,
    pub sapling_zatoshis: u64,
    pub orchard_zatoshis: u64,
    pub total_zatoshis: u64,
}

/// One watched entry as the API reports it.
#[derive(Clone, Debug)]
pub struct AccountResponse {
    pub label: String,
    pub account_type: String,
    pub balances: BalanceResponse,
    pub last_synced_height: u64,
}

/// The contents of an `AccountResponse`.
pub struct AccountResponseView {
    pub label: Seq<char>,
    pub account_type: Seq<char>,
    pub balances: BalanceResponse,
    pub last_synced_height: u64,
}

impl View for AccountResponse {
    type V = AccountResponseView;

    open spec fn view(&self) -> AccountResponseView {
        AccountResponseView {
            label: self.label@,
            account_type: self.account_type@,
            balances: self.balances,
            last_synced_height: self.last_synced_height,
        }
    }
}

/// The service's health report.
#[derive(Clone, Debug)]
pub struct HealthResponse {
    pub status: String,
    pub watched_accounts: usize,
    pub watched_addresses: usize,
    pub lightwalletd_endpoint: String,
}

/// The body of a refused request.
#[derive(Clone, Debug)]
pub struct ErrorResponse {
    pub error: String,
}

/// The body of an API reply.
#[derive(Debug)]
pub enum ReplyBody {
    Account(AccountResponse),
    Error(ErrorResponse),
    /// An entry was added under `label`; `birthday_height` is reported for
    /// shielded accounts only.
    Created { label: String, birthday_height: Option<u64> },
    Deleted { label: String },
    Transactions { label: String, count: usize, transactions: Vec<TransactionDetail> },
}

/// An API reply: its HTTP status and its body.
#[derive(Debug)]
pub struct ApiReply {
    pub status: u16,
    pub body: ReplyBody,
}

/// The contents of a reply body.
pub enum ReplyBodyView {
    Account(AccountResponseView),
    Error(Seq<char>),
    Created { label: Seq<char>, birthday_height: Option<u64> },
    Deleted { label: Seq<char> },
    Transactions { label: Seq<char>, count: usize, transactions: Seq<TransactionDetail> },
}

/// The contents of an API reply.
pub struct ApiReplyView {
    pub status: u16,
    pub body: ReplyBodyView,
}

impl View for ApiReply {
    type V = ApiReplyView;

    open spec fn view(&self) -> ApiReplyView {
        ApiReplyView {
            status: self.status,
            body: match self.body {
                ReplyBody::Account(a) => ReplyBodyView::Account(a@),
                ReplyBody::Error(e) => ReplyBodyView::Error(e.error@),
                ReplyBody::Created { label, birthday_height } => ReplyBodyView::Created {
                    label: label@,
                    birthday_height,
                },
                ReplyBody::Deleted { label } => ReplyBodyView::Deleted { label: label@ },
                ReplyBody::Transactions { label, count, transactions } =>
                    ReplyBodyView::Transactions { label: label@, count, transactions: transactions@ },
            },
        }
    }
}

/// The reply refusing a request with `status` and the text `message`.
pub open spec fn error_reply(status: u16, message: Seq<char>) -> ApiReplyView {
    ApiReplyView { status, body: ReplyBodyView::Error(message) }
}

/// The text of a request for an entry that does not exist.
pub open spec fn account_not_found_text(label: Seq<char>) -> Seq<char> {
    "Account '"@ + label + "' not found"@
}

/// The text of a failed scanner-client initialization.
pub open spec fn scanner_failure_text(cause: Seq<char>) -> Seq<char> {
    "Failed to initialize scanner: "@ + cause
}

/// The text of a failed transaction fetch.
pub open spec fn transactions_failure_text(cause: Seq<char>) -> Seq<char> {
    "Failed to retrieve transactions: "@ + cause
}

/// Balances as reported: the three pools and their total.
pub open spec fn balance_response_of(b: PoolBalances) -> BalanceResponse {
    BalanceResponse {
        transparent_zatoshis: b.transparent,
        sapling_zatoshis: b.sapling,
        orchard_zatoshis: b.orchard,
        total_zatoshis: b.sum() as u64,
    }
}

/// The balances of a transparent address: all in the transparent pool.
pub open spec fn transparent_pools(balance: u64) -> PoolBalances {
    PoolBalances { transparent: balance, sapling: 0, orchard: 0 }
}

/// How the API reports a shielded account.
pub open spec fn shielded_response(a: ShieldedAccount) -> AccountResponseView {
    AccountResponseView {
        label: a.label@,
        account_type: "shielded"@,
        balances: balance_response_of(a.balances),
        last_synced_height: a.last_synced_height,
    }
}

/// How the API reports a transparent address.
pub open spec fn transparent_response(a: TransparentAddress) -> AccountResponseView {
    AccountResponseView {
        label: a.label@,
        account_type: "transparent"@,
        balances: balance_response_of(transparent_pools(a.balance_zatoshis)),
        last_synced_height: a.last_synced_height,
    }
}

/// The listing of a registry: every account in order, then every address in
/// order.
pub open spec fn listing(v: AccountStoreView) -> Seq<AccountResponseView> {
    v.accounts.map_values(|e: (Seq<char>, ShieldedAccount)| shielded_response(e.1))
        + v.addresses.map_values(|e: (Seq<char>, TransparentAddress)| transparent_response(e.1))
}

/// The contents of a sequence of account responses.
pub open spec fn responses_view(r: Seq<AccountResponse>) -> Seq<AccountResponseView> {
    r.map_values(|x: AccountResponse| x@)
}

/// The reply to looking up `label` in a registry.
pub open spec fn account_lookup_reply(v: AccountStoreView, label: Seq<char>) -> ApiReplyView {
    match lookup(v.accounts, label) {
        Some(a) => ApiReplyView { status: 200, body: ReplyBodyView::Account(shielded_response(a)) },
        None => match lookup(v.addresses, label) {
            Some(t) => ApiReplyView {
                status: 200,
                body: ReplyBodyView::Account(transparent_response(t)),
            },
            None => error_reply(404, account_not_found_text(label)),
        },
    }
}

/// The birthday a request asks for, or the configured default.
pub open spec fn requested_birthday(req: AddAccountRequest, default_birthday: u64) -> u64 {
    match req.birthday_height {
        Some(h) => h,
        None => default_birthday,
    }
}

/// The account a request asks to watch: nothing synced yet, all balances zero.
pub open spec fn requested_account(req: AddAccountRequest, default_birthday: u64) -> ShieldedAccount {
    ShieldedAccount {
        label: req.label,
        viewing_key: req.viewing_key,
        birthday_height: requested_birthday(req, default_birthday),
        last_synced_height: 0,
        balances: PoolBalances { transparent: 0, sapling: 0, orchard: 0 },
    }
}

/// The address a request asks to watch: nothing synced yet, balance zero.
pub open spec fn requested_address(req: AddAddressRequest) -> TransparentAddress {
    TransparentAddress {
        label: req.label,
        address: req.address,
        last_synced_height: 0,
        balance_zatoshis: 0,
    }
}

impl BalanceResponse {
    /// Reports balances: the three pools and their total.
    pub fn from(b: &PoolBalances) -> (r: BalanceResponse)
        requires
            b.total_fits(),
        ensures
            r == balance_response_of(*b),
    {
        BalanceResponse {
            transparent_zatoshis: b.transparent,
            sapling_zatoshis: b.sapling,
            orchard_zatoshis: b.orchard,
            total_zatoshis: b.total(),
        }
    }
}

impl AddAccountRequest {
    /// The height to scan from: the one requested, else the configured default.
    pub fn birthday(&self, default_birthday: u64) -> (h: u64)
        ensures
            h == requested_birthday(*self, default_birthday),
    {
        match self.birthday_height {
            Some(h) => h,
            None => default_birthday,
        }
    }
}

impl ApiReply {
    /// A reply refusing a request with `status` and the text `message`.
    pub fn error(status: u16, message: String) -> (r: ApiReply)
        ensures
            r@ == error_reply(status, message@),
    {
        ApiReply { status, body: ReplyBody::Error(ErrorResponse { error: message }) }
    }
}

/// What a request that changes the registry leads to.
#[derive(Debug)]
pub struct Outcome {
    /// The reply, when nothing is persisted or persisting succeeds.
    pub reply: ApiReply,
    /// The registry changed and must be written back.
    pub persist: bool,
    /// The scanner client of the request's label must be dropped.
    pub undo_client: bool,
    /// The reply status when writing the registry back fails.
    pub failure_status: u16,
    /// Whether the scanner client must be dropped when writing back fails.
    pub undo_client_on_failure: bool,
}

/// How a request ends once the registry has (or has not) been written back.
#[derive(Debug)]
pub struct Settled {
    pub reply: ApiReply,
    /// The scanner client of the request's label must be dropped.
    pub undo_client: bool,
    /// The registry changed for good: the count of watched entries is to be
    /// refreshed.
    pub refresh_watch_count: bool,
}

impl Outcome {
    /// Ends the request given the result of writing the registry back (looked
    /// at only when the registry changed): the planned reply on success, else
    /// a refusal carrying the write error's text.
    pub fn settle(self, saved: Result<(), String>) -> (s: Settled)
        ensures
            !self.persist ==> s.reply == self.reply && s.undo_client == self.undo_client
                && !s.refresh_watch_count,
            self.persist && saved is Ok ==> s.reply == self.reply && s.undo_client
                == self.undo_client && s.refresh_watch_count,
            self.persist && saved is Err ==> s.reply@ == error_reply(
                self.failure_status,
                saved->Err_0@,
            ) && s.undo_client == self.undo_client_on_failure && !s.refresh_watch_count,
    {
        if !self.persist {
            return Settled { reply: self.reply, undo_client: self.undo_client, refresh_watch_count: false };
        }
        match saved {
            Ok(()) => Settled {
                reply: self.reply,
                undo_client: self.undo_client,
                refresh_watch_count: true,
            },
            Err(message) => Settled {
                reply: ApiReply::error(self.failure_status, message),
                undo_client: self.undo_client_on_failure,
                refresh_watch_count: false,
            },
        }
    }
}

/// How the API reports a shielded account.
pub fn shielded_account_response(a: &ShieldedAccount) -> (r: AccountResponse)
    requires
        a.balances.total_fits(),
    ensures
        r@ == shielded_response(*a),
{
    AccountResponse {
        label: a.label.clone(),
        account_type: "shielded".to_owned(),
        balances: BalanceResponse::from(&a.balances),
        last_synced_height: a.last_synced_height,
    }
}

/// How the API reports a transparent address.
pub fn transparent_address_response(a: &TransparentAddress) -> (r: AccountResponse)
    ensures
        r@ == transparent_response(*a),
{
    let balances = PoolBalances { transparent: a.balance_zatoshis, sapling: 0, orchard: 0 };
    AccountResponse {
        label: a.label.clone(),
        account_type: "transparent".to_owned(),
        balances: BalanceResponse::from(&balances),
        last_synced_height: a.last_synced_height,
    }
}

/// GET /api/health: the counts of watched accounts and addresses, and the
/// backend endpoint.
pub fn health_handler(store: &AccountStore, config: &Config) -> (r: HealthResponse)
    ensures
        r.status@ == "ok"@,
        r.watched_accounts == store@.accounts.len(),
        r.watched_addresses == store@.addresses.len(),
        r.lightwalletd_endpoint@ == config.lightwalletd.endpoint@,
{
    HealthResponse {
        status: "ok".to_owned(),
        watched_accounts: store.accounts().len(),
        watched_addresses: store.addresses().len(),
        lightwalletd_endpoint: config.lightwalletd.endpoint.clone(),
    }
}

/// GET /api/accounts: every account, then every address, with balances.
pub fn list_accounts_handler(store: &AccountStore) -> (r: Vec<AccountResponse>)
    requires
        store@.totals_fit(),
    ensures
        responses_view(r@) == listing(store@),
{
    let accounts = store.accounts();
    let addresses = store.addresses();
    let ghost v = store@;
    let ghost shielded = v.accounts.map_values(
        |e: (Seq<char>, ShieldedAccount)| shielded_response(e.1),
    );
    let ghost transparent = v.addresses.map_values(
        |e: (Seq<char>, TransparentAddress)| transparent_response(e.1),
    );
    let mut result: Vec<AccountResponse> = Vec::new();
    let n = accounts.len();
    let mut i: usize = 0;
    while i < n
        invariant
            n == v.accounts.len(),
            accounts@ == v.accounts,
            v.totals_fit(),
            i <= n,
            result@.len() == i,
            forall|j: int| 0 <= j < i ==> (#[trigger] result@[j])@ == shielded_response(v.accounts[j].1),
        decreases n - i,
    {
        assert(v.accounts[i as int].1.balances.total_fits());
        let r = shielded_account_response(accounts.value_at(i));
        result.push(r);
        i = i + 1;
    }
    let m = addresses.len();
    let mut j: usize = 0;
    while j < m
        invariant
            n == v.accounts.len(),
            m == v.addresses.len(),
            addresses@ == v.addresses,
            j <= m,
            result@.len() == n + j,
            forall|k: int| 0 <= k < n ==> (#[trigger] result@[k])@ == shielded_response(v.accounts[k].1),
            forall|k: int| n <= k < n + j ==> (#[trigger] result@[k])@ == transparent_response(v.addresses[k - n].1),
        decreases m - j,
    {
        let r = transparent_address_response(addresses.value_at(j));
        result.push(r);
        j = j + 1;
    }
    assert(responses_view(result@) =~= listing(v)) by {
        assert forall|k: int| 0 <= k < result@.len() implies #[trigger] responses_view(result@)[k]
            == listing(v)[k] by {
            if k < n {
                assert(result@[k]@ == shielded_response(v.accounts[k].1));
                assert(shielded[k] == shielded_response(v.accounts[k].1));
            } else {
                assert(result@[k]@ == transparent_response(v.addresses[k - n].1));
                assert(transparent[k - n] == transparent_response(v.addresses[k - n].1));
            }
        }
    }
    result
}

/// GET /api/accounts/{label}: the account so labelled, else the address so
/// labelled, else a 404 refusal.
pub fn get_account_handler(store: &AccountStore, label: &str) -> (r: ApiReply)
    requires
        store.wf(),
        store@.account_total_fits(label@),
    ensures
        r@ == account_lookup_reply(store@, label@),
{
    let accounts = store.accounts();
    match accounts.find(label) {
        Some(i) => {
            proof {
                lemma_key_index_unique(store@.accounts, i as int);
            }
            let a = accounts.value_at(i);
            return ApiReply { status: STATUS_OK, body: ReplyBody::Account(shielded_account_response(a)) };
        },
        None => {},
    }
    let addresses = store.addresses();
    match addresses.find(label) {
        Some(i) => {
            proof {
                lemma_key_index_unique(store@.addresses, i as int);
            }
            let a = addresses.value_at(i);
            ApiReply { status: STATUS_OK, body: ReplyBody::Account(transparent_address_response(a)) }
        },
        None => {
            let mut m = "Account '".to_owned();
            m.append(label);
            m.append("' not found");
            ApiReply::error(STATUS_NOT_FOUND, m)
        },
    }
}

/// POST /api/accounts, once the scanner client for the request has been
/// initialized (`scanner_init`, with the cause of a failure): a failed
/// initialization is answered 500 with the registry unchanged; a label in use
/// is answered 409, the registry unchanged and the new client to be dropped;
/// otherwise the account is added with the requested (or default) birthday and
/// answered 201, to be persisted (a failed write is answered 409 and drops the
/// client).
pub fn add_account_handler(
    store: &mut AccountStore,
    req: AddAccountRequest,
    default_birthday: u64,
    scanner_init: Result<(), String>,
) -> (out: Outcome)
    requires
        old(store).wf(),
    ensures
        final(store).wf(),
        scanner_init matches Err(cause) ==> out.reply@ == error_reply(
            500,
            scanner_failure_text(cause@),
        ) && !out.persist && !out.undo_client && final(store)@ == old(store)@,
        scanner_init is Ok && old(store)@.label_taken(req.label@) ==> out.reply@ == error_reply(
            409,
            label_taken_text(req.label@),
        ) && !out.persist && out.undo_client && final(store)@ == old(store)@,
        scanner_init is Ok && !old(store)@.label_taken(req.label@) ==> out.reply@ == (ApiReplyView {
            status: 201,
            body: ReplyBodyView::Created {
                label: req.label@,
                birthday_height: Some(requested_birthday(req, default_birthday)),
            },
        }) && out.persist && !out.undo_client && out.failure_status == 409
            && out.undo_client_on_failure && final(store)@ == old(store)@.with_account(
            requested_account(req, default_birthday),
        ),
{
    let birthday = req.birthday(default_birthday);
    match scanner_init {
        Err(cause) => {
            let mut m = "Failed to initialize scanner: ".to_owned();
            m.append(cause.as_str());
            return Outcome {
                reply: ApiReply::error(STATUS_INTERNAL_ERROR, m),
                persist: false,
                undo_client: false,
                failure_status: STATUS_INTERNAL_ERROR,
                undo_client_on_failure: false,
            };
        },
        Ok(()) => {},
    }
    let label = req.label.clone();
    let account = ShieldedAccount {
        label: req.label,
        viewing_key: req.viewing_key,
        birthday_height: birthday,
        last_synced_height: 0,
        balances: PoolBalances { transparent: 0, sapling: 0, orchard: 0 },
    };
    match store.add_account(account) {
        Err(e) => Outcome {
            reply: ApiReply::error(STATUS_CONFLICT, e.message()),
            persist: false,
            undo_client: true,
            failure_status: STATUS_CONFLICT,
            undo_client_on_failure: true,
        },
        Ok(()) => Outcome {
            reply: ApiReply {
                status: STATUS_CREATED,
                body: ReplyBody::Created { label, birthday_height: Some(birthday) },
            },
            persist: true,
            undo_client: false,
            failure_status: STATUS_CONFLICT,
            undo_client_on_failure: true,
        },
    }
}

/// POST /api/addresses: a label in use is answered 409 with the registry
/// unchanged; otherwise the address is added and answered 201, to be
/// persisted (a failed write is answered 409).
pub fn add_address_handler(store: &mut AccountStore, req: AddAddressRequest) -> (out: Outcome)
    requires
        old(store).wf(),
    ensures
        final(store).wf(),
        !out.undo_client && !out.undo_client_on_failure,
        old(store)@.label_taken(req.label@) ==> out.reply@ == error_reply(
            409,
            label_taken_text(req.label@),
        ) && !out.persist && final(store)@ == old(store)@,
        !old(store)@.label_taken(req.label@) ==> out.reply@ == (ApiReplyView {
            status: 201,
            body: ReplyBodyView::Created { label: req.label@, birthday_height: None },
        }) && out.persist && out.failure_status == 409 && final(store)@ == old(store)@.with_address(
            requested_address(req),
        ),
{
    let label = req.label.clone();
    let addr = TransparentAddress {
        label: req.label,
        address: req.address,
        last_synced_height: 0,
        balance_zatoshis: 0,
    };
    match store.add_address(addr) {
        Err(e) => Outcome {
            reply: ApiReply::error(STATUS_CONFLICT, e.message()),
            persist: false,
            undo_client: false,
            failure_status: STATUS_CONFLICT,
            undo_client_on_failure: false,
        },
        Ok(()) => Outcome {
            reply: ApiReply {
                status: STATUS_CREATED,
                body: ReplyBody::Created { label, birthday_height: None },
            },
            persist: true,
            undo_client: false,
            failure_status: STATUS_CONFLICT,
            undo_client_on_failure: false,
        },
    }
}

/// GET /api/accounts/{label}/transactions, before any transaction is fetched:
/// a 404 refusal when no account or address carries `label`, else nothing.
pub fn get_transactions_check(store: &AccountStore, label: &str) -> (r: Option<ApiReply>)
    requires
        store.wf(),
    ensures
        store@.label_taken(label@) ==> r is None,
        !store@.label_taken(label@) ==> (r matches Some(reply) && reply@ == error_reply(
            404,
            account_not_found_text(label@),
        )),
{
    if store.contains_label(label) {
        None
    } else {
        let mut m = "Account '".to_owned();
        m.append(label);
        m.append("' not found");
        Some(ApiReply::error(STATUS_NOT_FOUND, m))
    }
}

/// GET /api/accounts/{label}/transactions, once the transactions have been
/// fetched (`fetched`, with the cause of a failure): the label, their count and
/// the transactions themselves; else a 500 refusal naming the cause.
pub fn get_transactions_reply(label: &str, fetched: Result<Vec<TransactionDetail>, String>) -> (r:
    ApiReply)
    ensures
        fetched matches Ok(txs) ==> r@ == (ApiReplyView {
            status: 200,
            body: ReplyBodyView::Transactions {
                label: label@,
                count: txs@.len() as usize,
                transactions: txs@,
            },
        }),
        fetched matches Err(cause) ==> r@ == error_reply(500, transactions_failure_text(cause@)),
{
    match fetched {
        Ok(transactions) => {
            let count = transactions.len();
            ApiReply {
                status: STATUS_OK,
                body: ReplyBody::Transactions { label: label.to_owned(), count, transactions },
            }
        },
        Err(cause) => {
            let mut m = "Failed to retrieve transactions: ".to_owned();
            m.append(cause.as_str());
            ApiReply::error(STATUS_INTERNAL_ERROR, m)
        },
    }
}

/// DELETE /api/accounts/{label}: removes the account so labelled, else the
/// address so labelled, answered 200 and to be persisted (a failed write is
/// answered 404); when neither exists, a 404 refusal with the registry
/// unchanged.
pub fn delete_account_handler(store: &mut AccountStore, label: &str) -> (out: Outcome)
    requires
        old(store).wf(),
    ensures
        final(store).wf(),
        final(store)@ == old(store)@.without(label@),
        !out.undo_client && !out.undo_client_on_failure,
        old(store)@.label_taken(label@) ==> out.reply@ == (ApiReplyView {
            status: 200,
            body: ReplyBodyView::Deleted { label: label@ },
        }) && out.persist && out.failure_status == 404,
        !old(store)@.label_taken(label@) ==> out.reply@ == error_reply(
            404,
            crate::store::no_account_text(label@),
        ) && !out.persist,
{
    match store.remove(label) {
        Ok(()) => Outcome {
            reply: ApiReply { status: STATUS_OK, body: ReplyBody::Deleted { label: label.to_owned() } },
            persist: true,
            undo_client: false,
            failure_status: STATUS_NOT_FOUND,
            undo_client_on_failure: false,
        },
        Err(e) => Outcome {
            reply: ApiReply::error(STATUS_NOT_FOUND, e.message()),
            persist: false,
            undo_client: false,
            failure_status: STATUS_NOT_FOUND,
            undo_client_on_failure: false,
        },
    }
}

} // verus!
