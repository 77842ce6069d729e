//! The content script's state: whether the default store is unlocked, its accounts, and
//! the progress of what the page asked for; and what it does on a session event.
use vstd::prelude::*;
use crate::json::JsonValue;
use crate::popup::{accounts_without, AlertInput};
use crate::request::{
    detail_lookup, detail_position, DataFieldType, Detail, RequestEnum, SessionEvent, SessionEventType,
};
use crate::util::{create_request_acknowledgement, is_acknowledgement};
use crate::types::{Account, Resource, StorageStatus};

verus! {

/// The outcome of the last login or logout.
pub enum StoreStatus {
    Idle,
    Loading,
    Success,
    Failure,
    Error,
}

/// The default store as the content script knows it.
pub struct StoreData {
    pub accounts: Vec<Account>,
    pub storage_status: StorageStatus,
    pub store_id: Option<String>,
    pub verified: bool,
}

/// The content script's state.
pub struct ContentScriptStore {
    pub page_loading: bool,
    pub alert_input: AlertInput,
    pub status: StoreStatus,
    pub data: StoreData,
    pub path: Option<String>,
}

/// Changes of the page.
pub enum ContentScriptAction {
    PathSet(Option<String>),
}

/// Changes of the store's data.
pub enum DataAction {
    ResourceFetchStarted(Resource),
    /// The service worker's answer to the init request: its detail.
    Init(Detail),
    /// A deleted resource: for an account, the account.
    ResourceDeleted(Resource, Option<Account>),
    /// A created resource: for an account, the account.
    ResourceCreated(Resource, Option<Account>),
    ResourceDeletionFailed(Resource, Detail),
    ResourceCreationFailed(Resource),
    ResourceDeletionStarted(Resource, Detail),
    ResourceCreationStarted(Resource, Detail),
    /// Fetched resources: for accounts, the accounts.
    ResourceFetched(Resource, Vec<Account>),
}

/// Changes of the login state.
pub enum LoginAction {
    LoginStarted,
    LoginError,
    LoginSucceeded(Option<Detail>),
    LoginFailed,
    LogoutSucceeded,
    LogoutFailed,
    LogoutStarted,
    Logout,
    Login(Option<Detail>),
}

impl ContentScriptStore {
    /// The state a content script starts with.
    pub fn new() -> (res: ContentScriptStore)
        ensures
            !res.page_loading,
            !res.alert_input.show_alert,
            res.alert_input.alert_message@.len() == 0,
            res.status is Idle,
            res.data.accounts@.len() == 0,
            res.data.storage_status is Uninitialized,
            res.data.store_id is None,
            !res.data.verified,
            res.path is None,
    {
        ContentScriptStore {
            page_loading: false,
            alert_input: AlertInput { show_alert: false, alert_message: String::new() },
            status: StoreStatus::Idle,
            data: StoreData {
                accounts: Vec::new(),
                storage_status: StorageStatus::Uninitialized,
                store_id: None,
                verified: false,
            },
            path: None,
        }
    }
}

impl ContentScriptAction {
    /// Applies the action.
    pub fn apply(self, state: ContentScriptStore) -> (res: ContentScriptStore)
        ensures
            match self {
                ContentScriptAction::PathSet(p) => res == ContentScriptStore { path: p, ..state },
            },
    {
        match self {
            ContentScriptAction::PathSet(p) => ContentScriptStore { path: p, ..state },
        }
    }
}

/// The default store a detail names, as a string.
pub open spec fn default_store_of(d: Option<Detail>) -> Option<String> {
    match d {
        Some(x) => match detail_lookup(x@, DataFieldType::DefaultStoreID) {
            Some(JsonValue::String(s)) => Some(s),
            _ => None,
        },
        None => None,
    }
}

/// Whether a detail reports the default store as available: `true` under
/// `DefaultStoreAvailable`.
pub open spec fn default_available(d: Seq<(DataFieldType, JsonValue)>) -> bool {
    detail_lookup(d, DataFieldType::DefaultStoreAvailable) == Some(JsonValue::Bool(true))
}

/// The default store a detail names.
fn default_store(d: &Option<Detail>) -> (res: Option<String>)
    ensures
        res == default_store_of(*d),
{
    match d {
        Some(x) => match detail_position(x, &DataFieldType::DefaultStoreID) {
            Some(i) => match &x[i].1 {
                JsonValue::String(s) => Some(s.clone()),
                _ => None,
            },
            None => None,
        },
        None => None,
    }
}

/// Whether a detail reports the default store as available.
fn is_available(d: &Detail) -> (res: bool)
    ensures
        res == default_available(d@),
{
    match detail_position(d, &DataFieldType::DefaultStoreAvailable) {
        Some(i) => match &d[i].1 {
            JsonValue::Bool(b) => *b,
            _ => false,
        },
        None => false,
    }
}

/// What a data action needs: fetched resources are accounts, and a created or deleted
/// account comes with the account.
pub open spec fn content_data_ready(a: DataAction) -> bool {
    match a {
        DataAction::ResourceFetched(r, _) => r == Resource::Account,
        DataAction::ResourceCreated(r, acc) => r == Resource::Account ==> acc is Some,
        DataAction::ResourceDeleted(r, acc) => r == Resource::Account ==> acc is Some,
        _ => true,
    }
}

/// What applying a data action does.
pub open spec fn content_data_step(s: ContentScriptStore, a: DataAction, t: ContentScriptStore) -> bool {
    match a {
        DataAction::ResourceCreationStarted(_, _) => t == ContentScriptStore { page_loading: true, ..s },
        DataAction::ResourceDeletionStarted(_, _) => t == ContentScriptStore { page_loading: true, ..s },
        DataAction::ResourceFetchStarted(_) => t == ContentScriptStore { page_loading: true, ..s },
        DataAction::ResourceCreationFailed(_) => t == ContentScriptStore { page_loading: false, ..s },
        DataAction::ResourceDeletionFailed(_, _) => t == s,
        DataAction::ResourceFetched(_, accounts) => t == ContentScriptStore {
            page_loading: false,
            data: StoreData { storage_status: StorageStatus::Loaded, accounts, ..s.data },
            ..s
        },
        DataAction::ResourceCreated(r, acc) => if r == Resource::Account {
            &&& t == ContentScriptStore {
                page_loading: false,
                data: StoreData { accounts: t.data.accounts, ..s.data },
                ..s
            }
            &&& t.data.accounts@ == s.data.accounts@.push(acc->0)
        } else {
            t == s
        },
        DataAction::ResourceDeleted(r, acc) => if r == Resource::Account {
            &&& t == ContentScriptStore {
                page_loading: false,
                data: StoreData { accounts: t.data.accounts, ..s.data },
                ..s
            }
            &&& t.data.accounts@ == accounts_without(s.data.accounts@, acc->0.id@)
        } else {
            t == s
        },
        DataAction::Init(d) => t == ContentScriptStore {
            data: StoreData { store_id: default_store_of(Some(d)), verified: default_available(d@), ..s.data },
            ..s
        },
    }
}

/// The accounts whose id is not `id`.
fn drop_account_id(v: Vec<Account>, id: &String) -> (res: Vec<Account>)
    ensures
        res@ == accounts_without(v@, id@),
{
    let ghost all = v@;
    let mut rest = v;
    let mut out: Vec<Account> = Vec::new();
    let n = rest.len();
    let mut i: usize = 0;
    while i < n
        invariant
            n == all.len(),
            i <= n,
            rest@ == all.subrange(i as int, n as int),
            out@ == accounts_without(all.take(i as int), id@),
        decreases n - i,
    {
        let a = rest.remove(0);
        assert(all.take(i + 1).drop_last() =~= all.take(i as int));
        if a.id != *id {
            out.push(a);
        }
        i = i + 1;
        assert(rest@ =~= all.subrange(i as int, n as int));
    }
    assert(all.take(n as int) =~= all);
    out
}

impl DataAction {
    /// Applies the action to the content script's state.
    pub fn apply(self, state: ContentScriptStore) -> (res: ContentScriptStore)
        requires
            content_data_ready(self),
        ensures
            content_data_step(state, self, res),
    {
        match self {
            DataAction::ResourceCreationStarted(_, _) => ContentScriptStore { page_loading: true, ..state },
            DataAction::ResourceDeletionStarted(_, _) => ContentScriptStore { page_loading: true, ..state },
            DataAction::ResourceFetchStarted(_) => ContentScriptStore { page_loading: true, ..state },
            DataAction::ResourceCreationFailed(_) => ContentScriptStore { page_loading: false, ..state },
            DataAction::ResourceDeletionFailed(_, _) => state,
            DataAction::ResourceFetched(_, accounts) => ContentScriptStore {
                page_loading: false,
                data: StoreData { storage_status: StorageStatus::Loaded, accounts, ..state.data },
                ..state
            },
            DataAction::ResourceCreated(r, acc) => match r {
                Resource::Account => {
                    let mut st = state;
                    st.data.accounts.push(acc.unwrap());
                    ContentScriptStore { page_loading: false, ..st }
                },
                _ => state,
            },
            DataAction::ResourceDeleted(r, acc) => match r {
                Resource::Account => {
                    let a = acc.unwrap();
                    let mut st = state;
                    let mut accs: Vec<Account> = Vec::new();
                    std::mem::swap(&mut accs, &mut st.data.accounts);
                    st.data.accounts = drop_account_id(accs, &a.id);
                    ContentScriptStore { page_loading: false, ..st }
                },
                _ => state,
            },
            DataAction::Init(d) => {
                let verified = is_available(&d);
                let store_id = default_store(&Some(d));
                ContentScriptStore { data: StoreData { store_id, verified, ..state.data }, ..state }
            },
        }
    }
}

/// The state after the store is unlocked: no accounts yet, unlocked, and the default
/// store the detail names.
pub open spec fn unlocked(s: ContentScriptStore, d: Option<Detail>, t: ContentScriptStore) -> bool {
    &&& t == ContentScriptStore {
        page_loading: false,
        data: StoreData { accounts: t.data.accounts, verified: true, store_id: default_store_of(d), ..s.data },
        ..s
    }
    &&& t.data.accounts@.len() == 0
}

/// The state after the store is locked: no accounts and not unlocked.
pub open spec fn locked_out(s: ContentScriptStore, status: StoreStatus, t: ContentScriptStore) -> bool {
    &&& t == ContentScriptStore {
        page_loading: false,
        status,
        data: StoreData { accounts: t.data.accounts, verified: false, ..s.data },
        ..s
    }
    &&& t.data.accounts@.len() == 0
}

/// What applying a login action does.
pub open spec fn content_login_step(s: ContentScriptStore, a: LoginAction, t: ContentScriptStore) -> bool {
    match a {
        LoginAction::LoginStarted => t == ContentScriptStore { page_loading: true, ..s },
        LoginAction::LoginError => t == ContentScriptStore { page_loading: false, status: StoreStatus::Error, ..s },
        LoginAction::LoginSucceeded(d) => unlocked(s, d, t),
        LoginAction::Login(d) => unlocked(s, d, t),
        LoginAction::LoginFailed => t == ContentScriptStore { page_loading: false, ..s },
        LoginAction::LogoutSucceeded => locked_out(s, StoreStatus::Success, t),
        LoginAction::LogoutFailed => t == ContentScriptStore { page_loading: false, status: StoreStatus::Failure, ..s },
        LoginAction::LogoutStarted => t == ContentScriptStore { page_loading: true, ..s },
        LoginAction::Logout => locked_out(s, s.status, t),
    }
}

fn unlock(state: ContentScriptStore, d: Option<Detail>) -> (res: ContentScriptStore)
    ensures
        unlocked(state, d, res),
{
    let store_id = default_store(&d);
    let mut st = state;
    st.data.accounts = Vec::new();
    st.data.verified = true;
    st.data.store_id = store_id;
    ContentScriptStore { page_loading: false, ..st }
}

fn lock_out(state: ContentScriptStore, status: StoreStatus) -> (res: ContentScriptStore)
    ensures
        locked_out(state, status, res),
{
    let mut st = state;
    st.data.accounts = Vec::new();
    st.data.verified = false;
    ContentScriptStore { page_loading: false, status, ..st }
}

impl LoginAction {
    /// Applies the action to the content script's state.
    pub fn apply(self, state: ContentScriptStore) -> (res: ContentScriptStore)
        ensures
            content_login_step(state, self, res),
    {
        match self {
            LoginAction::LoginStarted => ContentScriptStore { page_loading: true, ..state },
            LoginAction::LoginError => ContentScriptStore { page_loading: false, status: StoreStatus::Error, ..state },
            LoginAction::LoginSucceeded(d) => unlock(state, d),
            LoginAction::Login(d) => unlock(state, d),
            LoginAction::LoginFailed => ContentScriptStore { page_loading: false, ..state },
            LoginAction::LogoutSucceeded => lock_out(state, StoreStatus::Success),
            LoginAction::LogoutFailed => ContentScriptStore { page_loading: false, status: StoreStatus::Failure, ..state },
            LoginAction::LogoutStarted => ContentScriptStore { page_loading: true, ..state },
            LoginAction::Logout => {
                let status = match state.status {
                    StoreStatus::Idle => StoreStatus::Idle,
                    StoreStatus::Loading => StoreStatus::Loading,
                    StoreStatus::Success => StoreStatus::Success,
                    StoreStatus::Failure => StoreStatus::Failure,
                    StoreStatus::Error => StoreStatus::Error,
                };
                lock_out(state, status)
            },
        }
    }
}

/// What the content script does on a session event: a data action or a login action.
pub struct ContentReaction {
    pub data: Option<DataAction>,
    pub login: Option<LoginAction>,
}

/// The first resource an event is about.
pub open spec fn event_resource(e: SessionEvent) -> Option<Resource> {
    match e.resource {
        Some(r) => if r@.len() > 0 { Some(r@[0]) } else { None },
        None => None,
    }
}

/// What an event needs: an event about deletion, creation, failed creation or refresh
/// names its resource.
pub open spec fn content_event_ready(e: SessionEvent) -> bool {
    match e.event_type {
        SessionEventType::Delete => event_resource(e) is Some,
        SessionEventType::Create => event_resource(e) is Some,
        SessionEventType::CreationFailed => event_resource(e) is Some,
        SessionEventType::Refreshed => event_resource(e) is Some,
        _ => true,
    }
}

/// The detail an event carries, or an empty one.
pub open spec fn carried(e: SessionEvent, d: Detail) -> bool {
    match e.data {
        Some(x) => d == x,
        None => d@.len() == 0,
    }
}

/// What the content script does on a session event, given the account (for a creation
/// or deletion) and the accounts (for a refresh) parsed out of its detail.
pub open spec fn content_reaction_step(
    e: SessionEvent, account: Option<Account>, accounts: Vec<Account>, r: ContentReaction,
) -> bool {
    let acc = event_resource(e) == Some(Resource::Account);
    match e.event_type {
        SessionEventType::Init(_) => r.data matches Some(DataAction::Init(d)) && carried(e, d) && r.login is None,
        SessionEventType::Login => r.login matches Some(LoginAction::Login(Some(d))) && carried(e, d) && r.data is None,
        SessionEventType::Logout => r.data is None && r.login == Some(LoginAction::Logout),
        SessionEventType::Delete => r.login is None && if acc {
            r.data == Some(DataAction::ResourceDeleted(Resource::Account, account))
        } else {
            r.data is None
        },
        SessionEventType::Create => r.login is None && if acc {
            r.data == Some(DataAction::ResourceCreated(Resource::Account, account))
        } else {
            r.data is None
        },
        SessionEventType::CreationFailed => r.login is None && if acc {
            r.data == Some(DataAction::ResourceCreationFailed(Resource::Account))
        } else {
            r.data is None
        },
        SessionEventType::Refreshed => r.login is None && if acc {
            r.data == Some(DataAction::ResourceFetched(Resource::Account, accounts))
        } else {
            r.data is None
        },
        _ => r.login is None && r.data is None,
    }
}

/// Decides what the content script does on a session event.
pub fn content_reaction(e: SessionEvent, account: Option<Account>, accounts: Vec<Account>) -> (r: ContentReaction)
    requires
        content_event_ready(e),
    ensures
        content_reaction_step(e, account, accounts, r),
{
    let acc = match &e.resource {
        Some(r) => r.len() > 0 && match r[0] {
            Resource::Account => true,
            _ => false,
        },
        None => false,
    };
    let d: Detail = match e.data {
        Some(x) => x,
        None => Vec::new(),
    };
    match e.event_type {
        SessionEventType::Init(_) => ContentReaction { data: Some(DataAction::Init(d)), login: None },
        SessionEventType::Login => ContentReaction { data: None, login: Some(LoginAction::Login(Some(d))) },
        SessionEventType::Logout => ContentReaction { data: None, login: Some(LoginAction::Logout) },
        SessionEventType::Delete => ContentReaction {
            data: if acc { Some(DataAction::ResourceDeleted(Resource::Account, account)) } else { None },
            login: None,
        },
        SessionEventType::Create => ContentReaction {
            data: if acc { Some(DataAction::ResourceCreated(Resource::Account, account)) } else { None },
            login: None,
        },
        SessionEventType::CreationFailed => ContentReaction {
            data: if acc { Some(DataAction::ResourceCreationFailed(Resource::Account)) } else { None },
            login: None,
        },
        SessionEventType::Refreshed => ContentReaction {
            data: if acc { Some(DataAction::ResourceFetched(Resource::Account, accounts)) } else { None },
            login: None,
        },
        _ => ContentReaction { data: None, login: None },
    }
}

/// Fetching the accounts of a store, or of a path in it, for the page: a fetch request
/// for accounts with a fresh acknowledgement and no header, and the fetch marked as
/// started.
pub fn fetch_accounts(store_id: Option<String>, path: Option<String>) -> (res: (RequestEnum, DataAction))
    ensures
        res.0 matches RequestEnum::Fetch(r) && r.store_id == store_id && r.path == path
            && r.resource == Resource::Account && r.header is None
            && (r.acknowledgement matches Some(a) && is_acknowledgement(a@)),
        res.1 == DataAction::ResourceFetchStarted(Resource::Account),
{
    let ack = create_request_acknowledgement();
    let request = RequestEnum::create_fetch_request(store_id, path, Resource::Account, Some(ack), None);
    (request, DataAction::ResourceFetchStarted(Resource::Account))
}

} // verus!
