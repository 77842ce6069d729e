//! The popup's state: the store the user works in, whether it is unlocked, its accounts,
//! the stores and keys the service worker reported, and the progress of what the user
//! asked for. Every change is an action applied by a reducer.
use vstd::prelude::*;
use crate::json::{JsonMap, JsonValue};
use crate::request::{detail_lookup, detail_position, DataFieldType, Detail, RequestEnum};
use crate::session::account_position;
use crate::types::{Account, Key, Resource, StorageStatus};

verus! {

/// The progress of what the user asked of the popup's data.
pub enum StoreDataStatus {
    Idle,
    Loading,
    CreationStarted,
    StoreCreationStarted(Option<RequestEnum>, String),
    StoreCreationFailed(Detail, String),
    StoreCreated(Detail, String),
    StoreDeletionStarted(Option<RequestEnum>, String),
    StoreDeletionFailed(Detail, String),
    StoreDeleted(Detail, String),
    CreationSuccess,
    CreationFailed,
    DeletionStarted,
    DeletionSuccess,
    DeletionFailed,
    EditionStarted,
    EditionSuccess,
    EditionFailed,
    FetchStarted,
    FetchSuccess,
    FetchFailed,
    Error,
}

/// The progress of unlocking and locking the store.
pub enum LoginStatus {
    LoginFailed,
    LoggedIn,
    LoggedOut,
    Idle,
    LoginStarted(String),
    LogoutStarted,
    LoginSuccess,
    LoginError,
    LogoutSuccess,
    LogoutError,
    LogoutFailed,
}

/// The accounts of the current store and their load state.
pub struct StoreData {
    pub accounts: Vec<Account>,
    pub storage_status: StorageStatus,
}

/// What the popup keeps across openings: the current store, whether it is unlocked, and
/// the user's settings.
pub struct PersistentStoreData {
    pub store_id: Option<String>,
    pub store_activated: bool,
    pub remember_me: bool,
    pub dark_mode: bool,
}

/// An alert shown to the user.
pub struct AlertInput {
    pub show_alert: bool,
    pub alert_message: String,
}

/// The popup's state.
pub struct PopupStore {
    pub persistent_data: PersistentStoreData,
    pub page_loading: bool,
    pub alert_input: AlertInput,
    pub data_status: StoreDataStatus,
    pub login_status: LoginStatus,
    pub data: StoreData,
    pub store_ids: Vec<String>,
    pub keys: Vec<Key>,
    pub path: Option<String>,
    pub window_id: Option<String>,
    pub default_store_id: Option<String>,
}

/// Changes of the popup's window.
pub enum PopupAction {
    WindowIdSet(String),
    PathSet(Option<String>),
    DarkModeToggle,
}

/// Changes of the popup's data.
pub enum DataAction {
    StoreCreated(Detail, String),
    StoreCreationFailed(Detail, String),
    StoreCreationStarted(Option<RequestEnum>, String),
    StoreDeleted(Detail, String),
    StoreDeletionFailed(Detail, String),
    StoreDeletionStarted(Option<RequestEnum>, String),
    StoreIdSet(String),
    ResourceFetchStarted(Resource),
    /// The service worker's report: its detail, and the keys listed in it.
    Init(Detail, Vec<Key>),
    ResourceDeleted(Resource, Detail),
    /// A created resource: for an account, the account.
    ResourceCreated(Resource, Option<Account>),
    /// An edited resource with the id: for an account, the account as it is now.
    ResourceEdited(Resource, Option<Account>, String),
    ResourceDeletionFailed(Resource, Detail),
    ResourceEditionFailed(Resource),
    ResourceCreationFailed(Resource),
    ResourceDeletionStarted(Resource, Detail),
    ResourceEditionStarted(Resource, Detail),
    ResourceCreationStarted(Resource, Detail),
    /// Fetched resources: the event's detail, and for accounts, the accounts listed in it.
    ResourceFetched(Resource, Detail, Vec<Account>),
    Idle,
}

/// Changes of the popup's login state.
pub enum LoginAction {
    LoginStarted(String, Detail),
    LoginError(Detail, String),
    LoginSucceeded(Detail),
    LoginFailed(Detail),
    LogoutSucceeded(Detail),
    LogoutFailed(Detail),
    LogoutStarted(Detail),
    Logout(String, Detail),
    Login(String, Detail),
    LoginIdle,
    RememberMe(bool),
}

impl PopupStore {
    /// The state a popup starts with: nothing loaded, nothing asked, light mode.
    pub fn new() -> (res: PopupStore)
        ensures
            res.persistent_data.store_id is None,
            !res.persistent_data.store_activated,
            !res.persistent_data.remember_me,
            !res.persistent_data.dark_mode,
            !res.page_loading,
            !res.alert_input.show_alert,
            res.alert_input.alert_message@.len() == 0,
            res.data_status is Idle,
            res.login_status is Idle,
            res.data.accounts@.len() == 0,
            res.data.storage_status is Uninitialized,
            res.store_ids@.len() == 0,
            res.keys@.len() == 0,
            res.path is None,
            res.window_id is None,
            res.default_store_id is None,
    {
        PopupStore {
            persistent_data: PersistentStoreData {
                store_id: None,
                store_activated: false,
                remember_me: false,
                dark_mode: false,
            },
            page_loading: false,
            alert_input: AlertInput { show_alert: false, alert_message: String::new() },
            data_status: StoreDataStatus::Idle,
            login_status: LoginStatus::Idle,
            data: StoreData { accounts: Vec::new(), storage_status: StorageStatus::Uninitialized },
            store_ids: Vec::new(),
            keys: Vec::new(),
            path: None,
            window_id: None,
            default_store_id: None,
        }
    }
}

/// The store named in an event's detail, if it names one as a string; the current one
/// if it names none.
pub open spec fn named_store(d: Seq<(DataFieldType, JsonValue)>, current: Option<String>) -> Option<String> {
    match detail_lookup(d, DataFieldType::StoreID) {
        Some(JsonValue::String(s)) => Some(s),
        _ => current,
    }
}

/// The detail names no store, or names it as a string.
pub open spec fn store_named_well(d: Seq<(DataFieldType, JsonValue)>) -> bool {
    match detail_lookup(d, DataFieldType::StoreID) {
        Some(JsonValue::String(_)) => true,
        None => true,
        _ => false,
    }
}

/// The store named in the detail, or the current one.
fn store_named(d: &Detail, current: Option<String>) -> (res: Option<String>)
    ensures
        res == named_store(d@, current),
{
    match detail_position(d, &DataFieldType::StoreID) {
        Some(i) => match &d[i].1 {
            JsonValue::String(s) => Some(s.clone()),
            _ => current,
        },
        None => current,
    }
}

/// The id of the account a deletion event reports: the `id` member of the object under
/// `Data`.
pub open spec fn deleted_account_id(d: Seq<(DataFieldType, JsonValue)>) -> Option<String> {
    match detail_lookup(d, DataFieldType::Data) {
        Some(JsonValue::Object(m)) => match crate::json::member_value(m.entries@, "id"@) {
            Some(JsonValue::String(s)) => Some(s),
            _ => None,
        },
        _ => None,
    }
}

/// The id of the account a deletion event reports.
fn deleted_id(d: &Detail) -> (res: Option<String>)
    ensures
        res == deleted_account_id(d@),
{
    proof {
        reveal_strlit("id");
    }
    match detail_position(d, &DataFieldType::Data) {
        Some(i) => match &d[i].1 {
            JsonValue::Object(m) => match m.get("id") {
                Some(JsonValue::String(s)) => Some(s.clone()),
                _ => None,
            },
            _ => None,
        },
        None => None,
    }
}


/// The non-empty strings among the values, in order; other values are skipped.
pub open spec fn nonempty_strings(items: Seq<JsonValue>) -> Seq<String>
    decreases items.len(),
{
    if items.len() == 0 {
        Seq::empty()
    } else {
        let rest = nonempty_strings(items.drop_last());
        match items.last() {
            JsonValue::String(t) => if t@.len() > 0 { rest.push(t) } else { rest },
            _ => rest,
        }
    }
}

/// The store ids a report lists: the non-empty strings of the array under `StoreIDList`.
pub open spec fn reported_store_ids(d: Seq<(DataFieldType, JsonValue)>) -> Seq<String> {
    match detail_lookup(d, DataFieldType::StoreIDList) {
        Some(JsonValue::Array(items)) => nonempty_strings(items@),
        _ => Seq::empty(),
    }
}

/// The strings of `v` whose text is not `x`, in order.
pub open spec fn texts_without(v: Seq<String>, x: Seq<char>) -> Seq<String>
    decreases v.len(),
{
    if v.len() == 0 {
        Seq::empty()
    } else {
        let rest = texts_without(v.drop_last(), x);
        if v.last()@ == x { rest } else { rest.push(v.last()) }
    }
}

/// The accounts whose id is not `id`, in order.
pub open spec fn accounts_without(v: Seq<Account>, id: Seq<char>) -> Seq<Account>
    decreases v.len(),
{
    if v.len() == 0 {
        Seq::empty()
    } else {
        let rest = accounts_without(v.drop_last(), id);
        if v.last().id@ == id { rest } else { rest.push(v.last()) }
    }
}

/// The non-empty strings among the values.
fn nonempty_strings_of(items: &Vec<JsonValue>) -> (res: Vec<String>)
    ensures
        res@ == nonempty_strings(items@),
{
    let mut out: Vec<String> = Vec::new();
    let mut i: usize = 0;
    while i < items.len()
        invariant
            i <= items@.len(),
            out@ == nonempty_strings(items@.take(i as int)),
        decreases items@.len() - i,
    {
        assert(items@.take(i + 1).drop_last() =~= items@.take(i as int));
        match &items[i] {
            JsonValue::String(t) => {
                if !t.as_str().is_empty() {
                    out.push(t.clone());
                }
            },
            _ => {},
        }
        i = i + 1;
    }
    assert(items@.take(items@.len() as int) =~= items@);
    out
}

/// The store ids a report lists.
fn reported_ids(d: &Detail) -> (res: Vec<String>)
    ensures
        res@ == reported_store_ids(d@),
{
    match detail_position(d, &DataFieldType::StoreIDList) {
        Some(i) => match &d[i].1 {
            JsonValue::Array(items) => nonempty_strings_of(items),
            _ => Vec::new(),
        },
        None => Vec::new(),
    }
}

/// The strings whose text is not `x`.
fn drop_text(v: Vec<String>, x: &String) -> (res: Vec<String>)
    ensures
        res@ == texts_without(v@, x@),
{
    let ghost all = v@;
    let mut rest = v;
    let mut out: Vec<String> = Vec::new();
    let n = rest.len();
    let mut i: usize = 0;
    while i < n
        invariant
            n == all.len(),
            i <= n,
            rest@ == all.subrange(i as int, n as int),
            out@ == texts_without(all.take(i as int), x@),
        decreases n - i,
    {
        let t = rest.remove(0);
        assert(all.take(i + 1).drop_last() =~= all.take(i as int));
        if t != *x {
            out.push(t);
        }
        i = i + 1;
        assert(rest@ =~= all.subrange(i as int, n as int));
    }
    assert(all.take(n as int) =~= all);
    out
}

/// The accounts whose id is not `id`.
fn drop_accounts(v: Vec<Account>, id: &String) -> (res: Vec<Account>)
    ensures
        res@ == accounts_without(v@, id@),
{
    let ghost all = v@;
    let mut rest = v;
    let mut out: Vec<Account> = Vec::new();
    let n = rest.len();
    let mut i: usize = 0;
    while i < n
        invariant
            n == all.len(),
            i <= n,
            rest@ == all.subrange(i as int, n as int),
            out@ == accounts_without(all.take(i as int), id@),
        decreases n - i,
    {
        let a = rest.remove(0);
        assert(all.take(i + 1).drop_last() =~= all.take(i as int));
        if a.id != *id {
            out.push(a);
        }
        i = i + 1;
        assert(rest@ =~= all.subrange(i as int, n as int));
    }
    assert(all.take(n as int) =~= all);
    out
}

/// What a data action needs: fetched resources are accounts named well; a created or
/// edited account comes with the account; an edited account is one the popup holds; a
/// deleted account is reported with its id.
pub open spec fn data_action_ready(s: PopupStore, a: DataAction) -> bool {
    match a {
        DataAction::ResourceFetched(r, d, _) => r == Resource::Account && store_named_well(d@),
        DataAction::ResourceCreated(r, acc) => r == Resource::Account ==> acc is Some,
        DataAction::ResourceEdited(r, acc, id) => r == Resource::Account ==> acc is Some
            && crate::session::first_account(s.data.accounts@, id@) is Some,
        DataAction::ResourceDeleted(r, d) => r == Resource::Account ==> deleted_account_id(d@) is Some,
        _ => true,
    }
}

/// The state after a change of only the progress: `loading` and `status`.
pub open spec fn progress(s: PopupStore, t: PopupStore, loading: bool, status: StoreDataStatus) -> bool {
    t == PopupStore { page_loading: loading, data_status: status, ..s }
}

/// The state after a change of the accounts only, with the given progress.
pub open spec fn accounts_changed(s: PopupStore, t: PopupStore, accounts: Seq<Account>, status: StoreDataStatus) -> bool {
    &&& t == PopupStore {
        page_loading: false,
        data_status: status,
        data: StoreData { accounts: t.data.accounts, ..s.data },
        ..s
    }
    &&& t.data.accounts@ == accounts
}

/// What applying a data action does to the popup's state.
pub open spec fn data_step(s: PopupStore, a: DataAction, t: PopupStore) -> bool {
    match a {
        DataAction::StoreIdSet(id) => t == PopupStore {
            persistent_data: PersistentStoreData { store_id: Some(id), ..s.persistent_data },
            ..s
        },
        DataAction::ResourceCreationStarted(_, _) => progress(s, t, true, StoreDataStatus::CreationStarted),
        DataAction::ResourceEditionStarted(_, _) => progress(s, t, true, StoreDataStatus::EditionStarted),
        DataAction::ResourceDeletionStarted(_, _) => progress(s, t, true, StoreDataStatus::DeletionStarted),
        DataAction::ResourceFetchStarted(_) => progress(s, t, true, StoreDataStatus::FetchStarted),
        DataAction::ResourceCreationFailed(_) => progress(s, t, false, StoreDataStatus::CreationFailed),
        DataAction::ResourceEditionFailed(_) => progress(s, t, false, StoreDataStatus::EditionFailed),
        DataAction::ResourceDeletionFailed(_, _) => progress(s, t, false, StoreDataStatus::DeletionFailed),
        DataAction::Idle => progress(s, t, false, StoreDataStatus::Idle),
        DataAction::StoreCreationStarted(r, ack) => progress(s, t, true, StoreDataStatus::StoreCreationStarted(r, ack)),
        DataAction::StoreCreationFailed(d, ack) => progress(s, t, false, StoreDataStatus::StoreCreationFailed(d, ack)),
        DataAction::StoreDeletionStarted(r, ack) => progress(s, t, true, StoreDataStatus::StoreDeletionStarted(r, ack)),
        DataAction::StoreDeletionFailed(d, ack) => progress(s, t, false, StoreDataStatus::StoreDeletionFailed(d, ack)),
        DataAction::ResourceFetched(_, d, accounts) => t == PopupStore {
            page_loading: false,
            data: StoreData { storage_status: StorageStatus::Loaded, accounts },
            persistent_data: PersistentStoreData {
                store_id: named_store(d@, s.persistent_data.store_id),
                store_activated: true,
                ..s.persistent_data
            },
            data_status: StoreDataStatus::FetchSuccess,
            ..s
        },
        DataAction::ResourceCreated(r, acc) => if r == Resource::Account {
            accounts_changed(s, t, s.data.accounts@.push(acc->0), StoreDataStatus::CreationSuccess)
        } else {
            t == s
        },
        DataAction::ResourceEdited(r, acc, id) => if r == Resource::Account {
            accounts_changed(
                s,
                t,
                s.data.accounts@.update(crate::session::first_account(s.data.accounts@, id@)->0, acc->0),
                StoreDataStatus::EditionSuccess,
            )
        } else {
            t == s
        },
        DataAction::ResourceDeleted(r, d) => if r == Resource::Account {
            accounts_changed(
                s,
                t,
                accounts_without(s.data.accounts@, deleted_account_id(d@)->0@),
                StoreDataStatus::DeletionSuccess,
            )
        } else {
            t == s
        },
        DataAction::Init(d, keys) => {
            &&& t == PopupStore { page_loading: false, store_ids: t.store_ids, keys, ..s }
            &&& t.store_ids@ == reported_store_ids(d@)
        },
        DataAction::StoreCreated(d, id) => {
            &&& t == PopupStore {
                page_loading: false,
                store_ids: t.store_ids,
                data_status: StoreDataStatus::StoreCreated(d, id),
                ..s
            }
            &&& t.store_ids@ == s.store_ids@.push(id)
        },
        DataAction::StoreDeleted(d, id) => {
            &&& t.page_loading == false
            &&& t.store_ids@ == texts_without(s.store_ids@, id@)
            &&& t.data_status == StoreDataStatus::StoreDeleted(d, id)
            &&& if s.persistent_data.store_id matches Some(c) && c@ == id@ {
                &&& t == PopupStore {
                    page_loading: false,
                    store_ids: t.store_ids,
                    data_status: t.data_status,
                    persistent_data: PersistentStoreData {
                        store_id: None,
                        store_activated: false,
                        ..s.persistent_data
                    },
                    data: StoreData { accounts: t.data.accounts, ..s.data },
                    ..s
                }
                &&& t.data.accounts@.len() == 0
            } else {
                t == PopupStore { page_loading: false, store_ids: t.store_ids, data_status: t.data_status, ..s }
            }
        },
    }
}

impl DataAction {
    /// Applies the action to the popup's state.
    pub fn apply(self, state: PopupStore) -> (res: PopupStore)
        requires
            data_action_ready(state, self),
        ensures
            data_step(state, self, res),
    {
        match self {
            DataAction::StoreIdSet(id) => PopupStore {
                persistent_data: PersistentStoreData { store_id: Some(id), ..state.persistent_data },
                ..state
            },
            DataAction::ResourceCreationStarted(_, _) => PopupStore {
                page_loading: true,
                data_status: StoreDataStatus::CreationStarted,
                ..state
            },
            DataAction::ResourceEditionStarted(_, _) => PopupStore {
                page_loading: true,
                data_status: StoreDataStatus::EditionStarted,
                ..state
            },
            DataAction::ResourceDeletionStarted(_, _) => PopupStore {
                page_loading: true,
                data_status: StoreDataStatus::DeletionStarted,
                ..state
            },
            DataAction::ResourceFetchStarted(_) => PopupStore {
                page_loading: true,
                data_status: StoreDataStatus::FetchStarted,
                ..state
            },
            DataAction::ResourceCreationFailed(_) => PopupStore {
                page_loading: false,
                data_status: StoreDataStatus::CreationFailed,
                ..state
            },
            DataAction::ResourceEditionFailed(_) => PopupStore {
                page_loading: false,
                data_status: StoreDataStatus::EditionFailed,
                ..state
            },
            DataAction::ResourceDeletionFailed(_, _) => PopupStore {
                page_loading: false,
                data_status: StoreDataStatus::DeletionFailed,
                ..state
            },
            DataAction::Idle => PopupStore { page_loading: false, data_status: StoreDataStatus::Idle, ..state },
            DataAction::StoreCreationStarted(r, ack) => PopupStore {
                page_loading: true,
                data_status: StoreDataStatus::StoreCreationStarted(r, ack),
                ..state
            },
            DataAction::StoreCreationFailed(d, ack) => PopupStore {
                page_loading: false,
                data_status: StoreDataStatus::StoreCreationFailed(d, ack),
                ..state
            },
            DataAction::StoreDeletionStarted(r, ack) => PopupStore {
                page_loading: true,
                data_status: StoreDataStatus::StoreDeletionStarted(r, ack),
                ..state
            },
            DataAction::StoreDeletionFailed(d, ack) => PopupStore {
                page_loading: false,
                data_status: StoreDataStatus::StoreDeletionFailed(d, ack),
                ..state
            },
            DataAction::ResourceFetched(_, d, accounts) => {
                let store_id = store_named(&d, state.persistent_data.store_id);
                PopupStore {
                    page_loading: false,
                    data: StoreData { storage_status: StorageStatus::Loaded, accounts },
                    persistent_data: PersistentStoreData {
                        store_id,
                        store_activated: true,
                        ..state.persistent_data
                    },
                    data_status: StoreDataStatus::FetchSuccess,
                    ..state
                }
            },
            DataAction::ResourceCreated(r, acc) => match r {
                Resource::Account => {
                    let mut st = state;
                    st.data.accounts.push(acc.unwrap());
                    PopupStore { page_loading: false, data_status: StoreDataStatus::CreationSuccess, ..st }
                },
                _ => state,
            },
            DataAction::ResourceEdited(r, acc, id) => match r {
                Resource::Account => {
                    let mut st = state;
                    let k = account_position(&st.data.accounts, &id).unwrap();
                    let _ = st.data.accounts.remove(k);
                    st.data.accounts.insert(k, acc.unwrap());
                    assert(st.data.accounts@ =~= state.data.accounts@.update(k as int, acc->0));
                    PopupStore { page_loading: false, data_status: StoreDataStatus::EditionSuccess, ..st }
                },
                _ => state,
            },
            DataAction::ResourceDeleted(r, d) => match r {
                Resource::Account => {
                    let id = deleted_id(&d).unwrap();
                    let mut st = state;
                    let mut accs: Vec<Account> = Vec::new();
                    std::mem::swap(&mut accs, &mut st.data.accounts);
                    st.data.accounts = drop_accounts(accs, &id);
                    PopupStore { page_loading: false, data_status: StoreDataStatus::DeletionSuccess, ..st }
                },
                _ => state,
            },
            DataAction::Init(d, keys) => {
                let store_ids = reported_ids(&d);
                PopupStore { page_loading: false, store_ids, keys, ..state }
            },
            DataAction::StoreCreated(d, id) => {
                let mut st = state;
                st.store_ids.push(id.clone());
                PopupStore { page_loading: false, data_status: StoreDataStatus::StoreCreated(d, id), ..st }
            },
            DataAction::StoreDeleted(d, id) => {
                let mut st = state;
                let mut ids: Vec<String> = Vec::new();
                std::mem::swap(&mut ids, &mut st.store_ids);
                st.store_ids = drop_text(ids, &id);
                let current = match &st.persistent_data.store_id {
                    Some(c) => *c == id,
                    None => false,
                };
                if current {
                    st.persistent_data.store_id = None;
                    st.persistent_data.store_activated = false;
                    st.data.accounts = Vec::new();
                }
                PopupStore { page_loading: false, data_status: StoreDataStatus::StoreDeleted(d, id), ..st }
            },
        }
    }
}


/// The detail marks the store as the default one: `true` under `IsDefault`.
pub open spec fn marks_default(d: Seq<(DataFieldType, JsonValue)>) -> bool {
    detail_lookup(d, DataFieldType::IsDefault) == Some(JsonValue::Bool(true))
}

/// The state after the store is locked: not activated, its accounts dropped, and its id
/// kept only if the user asked to be remembered.
pub open spec fn locked(s: PopupStore, t: PopupStore, status: LoginStatus) -> bool {
    &&& t == PopupStore {
        page_loading: false,
        persistent_data: PersistentStoreData {
            store_id: if s.persistent_data.remember_me { s.persistent_data.store_id } else { None },
            store_activated: false,
            ..s.persistent_data
        },
        login_status: status,
        data: StoreData { accounts: t.data.accounts, ..s.data },
        ..s
    }
    &&& t.data.accounts@.len() == 0
}

/// What a login action needs: a reported login names its store well.
pub open spec fn login_action_ready(a: LoginAction) -> bool {
    match a {
        LoginAction::LoginSucceeded(d) => store_named_well(d@),
        _ => true,
    }
}

/// What applying a login action does to the popup's state.
pub open spec fn login_step(s: PopupStore, a: LoginAction, t: PopupStore) -> bool {
    match a {
        LoginAction::LoginStarted(id, _) => t == PopupStore {
            page_loading: true,
            login_status: LoginStatus::LoginStarted(id),
            ..s
        },
        LoginAction::LoginIdle => t == PopupStore { login_status: LoginStatus::Idle, ..s },
        LoginAction::LoginError(_, _) => t == PopupStore { page_loading: false, login_status: LoginStatus::LoginError, ..s },
        LoginAction::LoginSucceeded(d) => t == PopupStore {
            page_loading: false,
            persistent_data: PersistentStoreData {
                store_id: named_store(d@, s.persistent_data.store_id),
                store_activated: true,
                ..s.persistent_data
            },
            login_status: LoginStatus::LoginSuccess,
            ..s
        },
        LoginAction::LoginFailed(_) => t == PopupStore { page_loading: false, login_status: LoginStatus::LoginFailed, ..s },
        LoginAction::LogoutSucceeded(_) => locked(s, t, LoginStatus::LogoutSuccess),
        LoginAction::LogoutFailed(_) => t == PopupStore { page_loading: false, login_status: LoginStatus::LogoutFailed, ..s },
        LoginAction::LogoutStarted(_) => t == PopupStore { page_loading: true, login_status: LoginStatus::LogoutStarted, ..s },
        LoginAction::Logout(id, _) => if s.persistent_data.store_id matches Some(c) && c@ != id@ {
            t == s
        } else {
            locked(s, t, LoginStatus::LoggedOut)
        },
        LoginAction::Login(id, d) => t == PopupStore {
            page_loading: false,
            persistent_data: PersistentStoreData {
                store_activated: match s.login_status {
                    LoginStatus::LoginStarted(c) => c@ == id@,
                    _ => s.persistent_data.store_activated,
                },
                ..s.persistent_data
            },
            default_store_id: if marks_default(d@) { Some(id) } else { s.default_store_id },
            login_status: LoginStatus::LoggedIn,
            ..s
        },
        LoginAction::RememberMe(b) => t == PopupStore {
            persistent_data: PersistentStoreData {
                store_id: if b { s.persistent_data.store_id } else { None },
                remember_me: b,
                ..s.persistent_data
            },
            ..s
        },
    }
}

/// Locks the store in the state.
fn lock(state: PopupStore, status: LoginStatus) -> (res: PopupStore)
    ensures
        locked(state, res, status),
{
    let mut st = state;
    if !st.persistent_data.remember_me {
        st.persistent_data.store_id = None;
    }
    st.persistent_data.store_activated = false;
    st.data.accounts = Vec::new();
    PopupStore { page_loading: false, login_status: status, ..st }
}

/// Whether the detail marks the store as the default one.
fn is_marked_default(d: &Detail) -> (res: bool)
    ensures
        res == marks_default(d@),
{
    match detail_position(d, &DataFieldType::IsDefault) {
        Some(i) => match &d[i].1 {
            JsonValue::Bool(b) => *b,
            _ => false,
        },
        None => false,
    }
}

impl LoginAction {
    /// Applies the action to the popup's state.
    pub fn apply(self, state: PopupStore) -> (res: PopupStore)
        requires
            login_action_ready(self),
        ensures
            login_step(state, self, res),
    {
        match self {
            LoginAction::LoginStarted(id, _) => PopupStore {
                page_loading: true,
                login_status: LoginStatus::LoginStarted(id),
                ..state
            },
            LoginAction::LoginIdle => PopupStore { login_status: LoginStatus::Idle, ..state },
            LoginAction::LoginError(_, _) => PopupStore { page_loading: false, login_status: LoginStatus::LoginError, ..state },
            LoginAction::LoginSucceeded(d) => {
                let store_id = store_named(&d, state.persistent_data.store_id);
                PopupStore {
                    page_loading: false,
                    persistent_data: PersistentStoreData { store_id, store_activated: true, ..state.persistent_data },
                    login_status: LoginStatus::LoginSuccess,
                    ..state
                }
            },
            LoginAction::LoginFailed(_) => PopupStore { page_loading: false, login_status: LoginStatus::LoginFailed, ..state },
            LoginAction::LogoutSucceeded(_) => lock(state, LoginStatus::LogoutSuccess),
            LoginAction::LogoutFailed(_) => PopupStore { page_loading: false, login_status: LoginStatus::LogoutFailed, ..state },
            LoginAction::LogoutStarted(_) => PopupStore { page_loading: true, login_status: LoginStatus::LogoutStarted, ..state },
            LoginAction::Logout(id, _) => {
                let other = match &state.persistent_data.store_id {
                    Some(c) => *c != id,
                    None => false,
                };
                if other {
                    state
                } else {
                    lock(state, LoginStatus::LoggedOut)
                }
            },
            LoginAction::Login(id, d) => {
                let activated = match &state.login_status {
                    LoginStatus::LoginStarted(c) => *c == id,
                    _ => state.persistent_data.store_activated,
                };
                let default_store_id = if is_marked_default(&d) {
                    Some(id)
                } else {
                    state.default_store_id
                };
                PopupStore {
                    page_loading: false,
                    persistent_data: PersistentStoreData { store_activated: activated, ..state.persistent_data },
                    default_store_id,
                    login_status: LoginStatus::LoggedIn,
                    ..state
                }
            },
            LoginAction::RememberMe(b) => {
                let store_id = if b {
                    state.persistent_data.store_id
                } else {
                    None
                };
                PopupStore {
                    persistent_data: PersistentStoreData { store_id, remember_me: b, ..state.persistent_data },
                    ..state
                }
            },
        }
    }
}

impl PopupAction {
    /// Applies the action to the popup's state; toggling dark mode flips the setting.
    pub fn apply(self, state: PopupStore) -> (res: PopupStore)
        ensures
            match self {
                PopupAction::WindowIdSet(w) => res == PopupStore { window_id: Some(w), ..state },
                PopupAction::PathSet(p) => res == PopupStore { path: p, ..state },
                PopupAction::DarkModeToggle => res == PopupStore {
                    persistent_data: PersistentStoreData {
                        dark_mode: !state.persistent_data.dark_mode,
                        ..state.persistent_data
                    },
                    ..state
                },
            },
    {
        match self {
            PopupAction::WindowIdSet(w) => PopupStore { window_id: Some(w), ..state },
            PopupAction::PathSet(p) => PopupStore { path: p, ..state },
            PopupAction::DarkModeToggle => {
                let dark_mode = !state.persistent_data.dark_mode;
                PopupStore { persistent_data: PersistentStoreData { dark_mode, ..state.persistent_data }, ..state }
            },
        }
    }
}


/// What the popup parsed out of an event's detail: the created or edited account, the
/// fetched accounts, and the reported keys.
pub struct PopupPayload {
    pub account: Option<Account>,
    pub accounts: Vec<Account>,
    pub keys: Vec<Key>,
}

/// What the popup does on a session event: a login action, a data action, and the store
/// whose accounts to fetch.
pub struct PopupReaction {
    pub login: Option<LoginAction>,
    pub data: Option<DataAction>,
    pub fetch: Option<String>,
}

/// The store id an event's detail names, as a string.
pub open spec fn event_store(d: Option<Detail>) -> Option<String> {
    match d {
        Some(x) => match detail_lookup(x@, DataFieldType::StoreID) {
            Some(JsonValue::String(s)) => Some(s),
            _ => None,
        },
        None => None,
    }
}

/// The id in an event's meta: the `id` member, as a string.
pub open spec fn meta_id(m: Option<JsonValue>) -> Option<String> {
    match m {
        Some(JsonValue::Object(o)) => match crate::json::member_value(o.entries@, "id"@) {
            Some(JsonValue::String(s)) => Some(s),
            _ => None,
        },
        _ => None,
    }
}

/// The first resource an event is about.
pub open spec fn first_resource(e: crate::request::SessionEvent) -> Option<Resource> {
    match e.resource {
        Some(r) => if r@.len() > 0 { Some(r@[0]) } else { None },
        None => None,
    }
}

/// The detail an event carries, or an empty one.
pub open spec fn event_data_is(e: crate::request::SessionEvent, d: Detail) -> bool {
    match e.data {
        Some(x) => d == x,
        None => d@.len() == 0,
    }
}

/// What an event needs to be handled: a login or logout event names its store; a login
/// error comes with the store its request was for; an event about deletion, creation,
/// update, failed creation or refresh names its resource; an update names its account in
/// its meta; a created or edited account comes parsed.
pub open spec fn popup_event_ready(e: crate::request::SessionEvent, login_store: Option<String>, payload: PopupPayload) -> bool {
    match e.event_type {
        crate::request::SessionEventType::Login => event_store(e.data) is Some,
        crate::request::SessionEventType::Logout => event_store(e.data) is Some,
        crate::request::SessionEventType::LoginError => login_store is Some,
        crate::request::SessionEventType::Delete => first_resource(e) is Some && (first_resource(e) == Some(Resource::Account)
            ==> (match e.data { Some(d) => deleted_account_id(d@) is Some, None => false })),
        crate::request::SessionEventType::Create => first_resource(e) is Some && (first_resource(e) == Some(Resource::Account)
            ==> payload.account is Some),
        crate::request::SessionEventType::Update => first_resource(e) is Some && (first_resource(e) == Some(Resource::Account)
            ==> payload.account is Some && meta_id(e.meta) is Some),
        crate::request::SessionEventType::CreationFailed => first_resource(e) is Some,
        crate::request::SessionEventType::Refreshed => first_resource(e) is Some && (first_resource(e) == Some(Resource::Account)
            ==> match e.data { Some(d) => store_named_well(d@), None => true }),
        _ => true,
    }
}

/// Nothing is done.
pub open spec fn no_reaction(r: PopupReaction) -> bool {
    r.login is None && r.data is None && r.fetch is None
}

/// What the popup does on a session event.
pub open spec fn popup_reaction_step(
    s: PopupStore, e: crate::request::SessionEvent, login_store: Option<String>, payload: PopupPayload,
    r: PopupReaction,
) -> bool {
    match e.event_type {
        crate::request::SessionEventType::Login => {
            let id = event_store(e.data)->0;
            match s.login_status {
                LoginStatus::LoginStarted(c) => if c@ == id@ {
                    &&& r.login matches Some(LoginAction::LoginSucceeded(d)) && event_data_is(e, d)
                    &&& r.data is None
                    &&& r.fetch == Some(id)
                } else {
                    no_reaction(r)
                },
                _ => {
                    &&& r.login matches Some(LoginAction::Login(x, d)) && x == id && event_data_is(e, d)
                    &&& r.data is None
                    &&& r.fetch is None
                },
            }
        },
        crate::request::SessionEventType::LoginError => {
            &&& r.login matches Some(LoginAction::LoginError(d, x)) && x == login_store->0 && event_data_is(e, d)
            &&& r.data is None
            &&& r.fetch is None
        },
        crate::request::SessionEventType::Logout => {
            &&& r.login matches Some(LoginAction::Logout(x, d)) && x == event_store(e.data)->0 && event_data_is(e, d)
            &&& r.data is None
            &&& r.fetch is None
        },
        crate::request::SessionEventType::Delete => if first_resource(e) == Some(Resource::Account) {
            &&& r.data matches Some(DataAction::ResourceDeleted(x, d)) && x == Resource::Account && event_data_is(e, d)
            &&& r.login is None
            &&& r.fetch is None
        } else {
            no_reaction(r)
        },
        crate::request::SessionEventType::StoreDeleted(d, id) => {
            &&& r.data == Some(DataAction::StoreDeleted(d, id))
            &&& r.login is None
            &&& r.fetch is None
        },
        crate::request::SessionEventType::StoreDeletionFailed(d, id) => {
            &&& r.data == Some(DataAction::StoreDeletionFailed(d, id))
            &&& r.login is None
            &&& r.fetch is None
        },
        crate::request::SessionEventType::Create => if first_resource(e) == Some(Resource::Account) {
            &&& r.data == Some(DataAction::ResourceCreated(Resource::Account, payload.account))
            &&& r.login is None
            &&& r.fetch is None
        } else {
            no_reaction(r)
        },
        crate::request::SessionEventType::Update => if first_resource(e) == Some(Resource::Account) {
            &&& r.data == Some(DataAction::ResourceEdited(Resource::Account, payload.account, meta_id(e.meta)->0))
            &&& r.login is None
            &&& r.fetch is None
        } else {
            no_reaction(r)
        },
        crate::request::SessionEventType::CreationFailed => if first_resource(e) == Some(Resource::Account) {
            &&& r.data == Some(DataAction::ResourceCreationFailed(Resource::Account))
            &&& r.login is None
            &&& r.fetch is None
        } else {
            no_reaction(r)
        },
        crate::request::SessionEventType::StoreCreated(d, id) => {
            &&& r.data == Some(DataAction::StoreCreated(d, id))
            &&& r.login is None
            &&& r.fetch is None
        },
        crate::request::SessionEventType::StoreCreationFailed(d, id) => {
            &&& r.data == Some(DataAction::StoreCreationFailed(d, id))
            &&& r.login is None
            &&& r.fetch is None
        },
        crate::request::SessionEventType::Refreshed => if first_resource(e) == Some(Resource::Account) {
            &&& r.data matches Some(DataAction::ResourceFetched(x, d, a)) && x == Resource::Account && event_data_is(e, d)
                && a == payload.accounts
            &&& r.login is None
            &&& r.fetch is None
        } else {
            no_reaction(r)
        },
        crate::request::SessionEventType::Init(d) => {
            &&& r.data == Some(DataAction::Init(d, payload.keys))
            &&& r.login is None
            &&& r.fetch == if s.persistent_data.store_activated { s.persistent_data.store_id } else { None }
        },
        _ => no_reaction(r),
    }
}

/// The store id an event's detail names.
fn store_of_event(d: &Detail) -> (res: Option<String>)
    ensures
        res == event_store(Some(*d)),
{
    match detail_position(d, &DataFieldType::StoreID) {
        Some(i) => match &d[i].1 {
            JsonValue::String(s) => Some(s.clone()),
            _ => None,
        },
        None => None,
    }
}

/// The id in an event's meta.
fn id_of_meta(m: &Option<JsonValue>) -> (res: Option<String>)
    ensures
        res == meta_id(*m),
{
    proof {
        reveal_strlit("id");
    }
    match m {
        Some(JsonValue::Object(o)) => match o.get("id") {
            Some(JsonValue::String(s)) => Some(s.clone()),
            _ => None,
        },
        _ => None,
    }
}

/// Whether the event is first about accounts.
fn about_accounts(e: &crate::request::SessionEvent) -> (res: bool)
    ensures
        res == (first_resource(*e) == Some(Resource::Account)),
{
    match &e.resource {
        Some(r) => r.len() > 0 && match r[0] {
            Resource::Account => true,
            _ => false,
        },
        None => false,
    }
}

fn reaction(login: Option<LoginAction>, data: Option<DataAction>, fetch: Option<String>) -> (r: PopupReaction)
    ensures
        r.login == login,
        r.data == data,
        r.fetch == fetch,
{
    PopupReaction { login, data, fetch }
}

/// Decides what the popup does on a session event from the service worker, given the
/// store the login request was for (for a login error) and what was parsed out of the
/// event's detail.
pub fn popup_reaction(
    state: &PopupStore, event: crate::request::SessionEvent, login_store: Option<String>, payload: PopupPayload,
) -> (r: PopupReaction)
    requires
        popup_event_ready(event, login_store, payload),
    ensures
        popup_reaction_step(*state, event, login_store, payload, r),
{
    let accounts_first = about_accounts(&event);
    let meta = id_of_meta(&event.meta);
    let data: Detail = match event.data {
        Some(d) => d,
        None => Vec::new(),
    };
    match event.event_type {
        crate::request::SessionEventType::Login => {
            let id = store_of_event(&data).unwrap();
            match &state.login_status {
                LoginStatus::LoginStarted(c) => {
                    if *c == id {
                        reaction(Some(LoginAction::LoginSucceeded(data)), None, Some(id))
                    } else {
                        reaction(None, None, None)
                    }
                },
                _ => reaction(Some(LoginAction::Login(id, data)), None, None),
            }
        },
        crate::request::SessionEventType::LoginError => reaction(Some(LoginAction::LoginError(data, login_store.unwrap())), None, None),
        crate::request::SessionEventType::Logout => {
            let id = store_of_event(&data).unwrap();
            reaction(Some(LoginAction::Logout(id, data)), None, None)
        },
        crate::request::SessionEventType::Delete => if accounts_first {
            reaction(None, Some(DataAction::ResourceDeleted(Resource::Account, data)), None)
        } else {
            reaction(None, None, None)
        },
        crate::request::SessionEventType::StoreDeleted(d, id) => reaction(None, Some(DataAction::StoreDeleted(d, id)), None),
        crate::request::SessionEventType::StoreDeletionFailed(d, id) => reaction(None, Some(DataAction::StoreDeletionFailed(d, id)), None),
        crate::request::SessionEventType::Create => if accounts_first {
            reaction(None, Some(DataAction::ResourceCreated(Resource::Account, payload.account)), None)
        } else {
            reaction(None, None, None)
        },
        crate::request::SessionEventType::Update => if accounts_first {
            reaction(None, Some(DataAction::ResourceEdited(Resource::Account, payload.account, meta.unwrap())), None)
        } else {
            reaction(None, None, None)
        },
        crate::request::SessionEventType::CreationFailed => if accounts_first {
            reaction(None, Some(DataAction::ResourceCreationFailed(Resource::Account)), None)
        } else {
            reaction(None, None, None)
        },
        crate::request::SessionEventType::StoreCreated(d, id) => reaction(None, Some(DataAction::StoreCreated(d, id)), None),
        crate::request::SessionEventType::StoreCreationFailed(d, id) => reaction(None, Some(DataAction::StoreCreationFailed(d, id)), None),
        crate::request::SessionEventType::Refreshed => if accounts_first {
            reaction(None, Some(DataAction::ResourceFetched(Resource::Account, data, payload.accounts)), None)
        } else {
            reaction(None, None, None)
        },
        crate::request::SessionEventType::Init(d) => {
            let fetch = if state.persistent_data.store_activated {
                state.persistent_data.store_id.clone()
            } else {
                None
            };
            reaction(None, Some(DataAction::Init(d, payload.keys)), fetch)
        },
        _ => reaction(None, None, None),
    }
}


/// Toggling dark mode twice leaves the popup's state as it was.
pub proof fn lemma_dark_mode_twice(s: PopupStore, t: PopupStore, u: PopupStore)
    requires
        t == (PopupStore {
            persistent_data: PersistentStoreData { dark_mode: !s.persistent_data.dark_mode, ..s.persistent_data },
            ..s
        }),
        u == (PopupStore {
            persistent_data: PersistentStoreData { dark_mode: !t.persistent_data.dark_mode, ..t.persistent_data },
            ..t
        }),
    ensures
        u == s,
{
}

/// A login the popup started, confirmed for the same store, activates that store.
pub proof fn lemma_started_login_activates(s: PopupStore, id: String, d0: Detail, d1: Detail, t: PopupStore, u: PopupStore)
    requires
        login_step(s, LoginAction::LoginStarted(id, d0), t),
        login_step(t, LoginAction::Login(id, d1), u),
    ensures
        u.persistent_data.store_activated,
        u.login_status == LoginStatus::LoggedIn,
        !u.page_loading,
{
}

/// After the store is locked, its accounts are gone and it is not activated; its id stays
/// exactly when the user asked to be remembered.
pub proof fn lemma_logout_remembers(s: PopupStore, d: Detail, t: PopupStore)
    requires
        login_step(s, LoginAction::LogoutSucceeded(d), t),
    ensures
        t.data.accounts@.len() == 0,
        !t.persistent_data.store_activated,
        t.persistent_data.remember_me ==> t.persistent_data.store_id == s.persistent_data.store_id,
        !t.persistent_data.remember_me ==> t.persistent_data.store_id is None,
{
}

/// Removing accounts by an id that no account has changes nothing.
pub proof fn lemma_accounts_without_absent(v: Seq<Account>, id: Seq<char>)
    requires
        forall|i: int| 0 <= i < v.len() ==> v[i].id@ != id,
    ensures
        accounts_without(v, id) == v,
    decreases v.len(),
{
    if v.len() > 0 {
        lemma_accounts_without_absent(v.drop_last(), id);
        assert(v.drop_last().push(v.last()) =~= v);
    }
}

/// An account created in the popup and then reported deleted, when no other account had
/// its id, leaves the accounts as they were.
pub proof fn lemma_created_then_deleted(s: PopupStore, a: Account, d: Detail, t: PopupStore, u: PopupStore)
    requires
        forall|i: int| 0 <= i < s.data.accounts@.len() ==> s.data.accounts@[i].id@ != a.id@,
        deleted_account_id(d@) matches Some(x) && x@ == a.id@,
        data_step(s, DataAction::ResourceCreated(Resource::Account, Some(a)), t),
        data_step(t, DataAction::ResourceDeleted(Resource::Account, d), u),
    ensures
        u.data.accounts@ == s.data.accounts@,
{
    let v = s.data.accounts@;
    lemma_accounts_without_absent(v, a.id@);
    assert(v.push(a).drop_last() =~= v);
}

/// A login event makes its store the popup's default store exactly when its detail holds
/// `IsDefault` as `true`; with `false`, another value or none there, the default store
/// stays as it was.
pub proof fn lemma_login_event_default(s: PopupStore, id: String, d: Detail, t: PopupStore)
    requires
        login_step(s, LoginAction::Login(id, d), t),
    ensures
        detail_lookup(d@, DataFieldType::IsDefault) == Some(JsonValue::Bool(true)) ==> t.default_store_id == Some(id),
        detail_lookup(d@, DataFieldType::IsDefault) != Some(JsonValue::Bool(true)) ==> t.default_store_id
            == s.default_store_id,
        t.login_status == LoginStatus::LoggedIn,
{
}

} // verus!
