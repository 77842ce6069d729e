//! The service worker's session state: which stores exist, which are unlocked, the
//! accounts loaded from each, and the keys of the user. Every change is an action; an
//! action may produce a session event, which is sent to the ports that it concerns.
use vstd::prelude::*;
use crate::json::{json_model_entries, json_model_seq, push_entry, JsonMap, JsonModel, JsonValue};
use crate::ports::{has_text, target_names, text_seq, PendingRequest, PortRegistry};
use crate::request::{
    copy_detail, detail_lookup, detail_model, detail_position, field_name, DataFieldType, Detail,
    NotificationTarget, SessionEvent, SessionEventType,
};
use crate::response::ResponseEnum;
use crate::types::{account_json, key_state_json, Account, Key, Resource, StateStoreStatus, StorageStatus};

verus! {

/// What the session knows of one password store.
pub struct StoreData {
    pub accounts: Vec<Account>,
    pub storage_status: StorageStatus,
    pub signing_key: Option<String>,
    pub store_id: String,
    pub verified: bool,
}

/// The session state of the service worker.
pub struct SessionStore {
    /// The known stores, at most one per store id.
    pub stores: Vec<StoreData>,
    pub keys: Vec<Key>,
    pub default_store: Option<String>,
    pub status: StateStoreStatus,
}

/// A store record that nothing has been loaded into: no accounts, not loaded, no signing
/// key.
pub open spec fn is_fresh_store(s: StoreData, id: Seq<char>, verified: bool) -> bool {
    &&& s.accounts@.len() == 0
    &&& s.storage_status == StorageStatus::Uninitialized
    &&& s.signing_key is None
    &&& s.store_id@ == id
    &&& s.verified == verified
}

/// No two stores have the same id.
pub open spec fn store_ids_distinct(s: Seq<StoreData>) -> bool {
    forall|i: int, j: int| 0 <= i < j < s.len() ==> s[i].store_id@ != s[j].store_id@
}

/// Some store has the id.
pub open spec fn has_store(s: Seq<StoreData>, id: Seq<char>) -> bool {
    exists|i: int| 0 <= i < s.len() && #[trigger] s[i].store_id@ == id
}

/// The position of the store with the id.
pub open spec fn store_index(s: Seq<StoreData>, id: Seq<char>) -> int
    recommends
        has_store(s, id),
{
    choose|i: int| 0 <= i < s.len() && #[trigger] s[i].store_id@ == id
}

/// The position of the first account with the id, if any.
pub open spec fn first_account(a: Seq<Account>, id: Seq<char>) -> Option<int> {
    if exists|i: int| 0 <= i < a.len() && a[i].id@ == id && forall|j: int| 0 <= j < i ==> a[j].id@ != id {
        Some(choose|i: int| 0 <= i < a.len() && a[i].id@ == id && forall|j: int| 0 <= j < i ==> a[j].id@ != id)
    } else {
        None
    }
}

/// Some account of the store has the id.
pub open spec fn store_holds(s: StoreData, id: Seq<char>) -> bool {
    exists|i: int| 0 <= i < s.accounts@.len() && #[trigger] s.accounts@[i].id@ == id
}

/// The position of the first store that holds an account with the id, if any.
pub open spec fn first_store_holding(s: Seq<StoreData>, id: Seq<char>) -> Option<int> {
    if exists|i: int| 0 <= i < s.len() && store_holds(s[i], id) && forall|j: int| 0 <= j < i ==> !store_holds(s[j], id) {
        Some(choose|i: int| 0 <= i < s.len() && store_holds(s[i], id) && forall|j: int| 0 <= j < i ==> !store_holds(s[j], id))
    } else {
        None
    }
}

/// The account with one field update applied: a new username, or a present password,
/// domain or note; updates of other fields change nothing.
pub open spec fn apply_update(a: Account, u: (DataFieldType, String)) -> Account {
    match u.0 {
        DataFieldType::Username => Account { username: u.1, ..a },
        DataFieldType::Password => Account { password: Some(u.1), ..a },
        DataFieldType::Domain => Account { domain: Some(u.1), ..a },
        DataFieldType::Note => Account { note: Some(u.1), ..a },
        _ => a,
    }
}

/// The account with the updates applied in order.
pub open spec fn apply_updates(a: Account, us: Seq<(DataFieldType, String)>) -> Account
    decreases us.len(),
{
    if us.len() == 0 {
        a
    } else {
        apply_update(apply_updates(a, us.drop_last()), us.last())
    }
}

/// The acknowledgement that an action's detail carries: a string under `Acknowledgement`.
pub open spec fn detail_ack(detail: Option<Detail>) -> Option<String> {
    match detail {
        Some(d) => match detail_lookup(d@, DataFieldType::Acknowledgement) {
            Some(JsonValue::String(s)) => Some(s),
            _ => None,
        },
        None => None,
    }
}

/// The text that an action's detail holds under `k`, if it holds a string there.
pub open spec fn detail_text(detail: Option<Detail>, k: DataFieldType) -> Option<String> {
    match detail {
        Some(d) => match detail_lookup(d@, k) {
            Some(JsonValue::String(s)) => Some(s),
            _ => None,
        },
        None => None,
    }
}

/// The flag that an action's detail holds under `k`, if it holds a boolean there.
pub open spec fn detail_flag(detail: Option<Detail>, k: DataFieldType) -> Option<bool> {
    match detail {
        Some(d) => match detail_lookup(d@, k) {
            Some(JsonValue::Bool(b)) => Some(b),
            _ => None,
        },
        None => None,
    }
}

/// The members of the JSON object that a detail map is written as.
pub open spec fn detail_entries(d: Seq<(DataFieldType, JsonValue)>) -> Seq<(Seq<char>, JsonModel)>
    decreases d.len(),
{
    if d.len() == 0 {
        Seq::empty()
    } else {
        detail_entries(d.drop_last()).push((field_name(d.last().0), d.last().1@))
    }
}

/// The target of an event answered to the port that asked, if it is known.
pub open spec fn port_target(t: NotificationTarget, port: Option<Seq<char>>) -> bool {
    match port {
        Some(p) => t matches NotificationTarget::Port { port_id } && port_id@ == p,
        None => t is Nobody,
    }
}

/// The target of an event for the listeners of a store.
pub open spec fn store_target(t: NotificationTarget, id: Seq<char>) -> bool {
    t matches NotificationTarget::Store { store_id } && store_id@ == id
}

/// An event and the names of the ports that it is sent to.
pub struct Broadcast {
    pub event: SessionEvent,
    pub recipients: Vec<String>,
}

/// A change of the session state, with the detail that came with it.
pub struct SessionActionWrapper {
    pub detail: Option<Detail>,
    pub action: SessionAction,
}

/// The changes of the session state.
pub enum SessionAction {
    /// A store was unlocked; `prev_store_id` is the store the asking port used before.
    Login { store_id: String, is_default: bool, prev_store_id: Option<String> },
    /// Unlocking failed for the request.
    LoginError(PendingRequest),
    /// A store, or every store when `None`, was locked.
    Logout(Option<String>, Option<String>),
    /// The native host reported its stores and the user's keys.
    Init { store_ids: Vec<String>, keys: Vec<Key> },
    /// Initialisation started, for the request with the acknowledgement.
    InitStarted(Option<String>),
    LogoutError,
    /// The entries of a store were fetched.
    DataFetched { store_id: String, resource: Resource, accounts: Vec<Account>, detail: Detail },
    /// Fetching a store's entries started.
    DataLoading(String, Option<String>),
    /// An entry was created; for an account, the account.
    DataCreated { store_id: String, resource: Resource, account: Option<Account> },
    /// A store was created.
    StoreCreated { store_id: String, acknowledgement: Option<String> },
    /// Creating a store failed, with the request and the response.
    StoreCreationFailed(PendingRequest, ResponseEnum),
    /// A store was deleted.
    StoreDeleted { store_id: String, acknowledgement: Option<String> },
    /// Deleting a store failed, with the request and the response.
    StoreDeletionFailed(PendingRequest, ResponseEnum),
    /// An entry was edited: the new text of each changed field, in order.
    DataEdited {
        store_id: String,
        resource: Resource,
        instance_id: String,
        updates: Vec<(DataFieldType, String)>,
    },
    /// An entry with the id was deleted.
    DataDeleted(Resource, String, Detail),
    DataDeletionFailed(Resource, String),
    DataCreationFailed(Resource, Detail, Option<PendingRequest>),
    DataEditFailed(Resource, Detail, Option<PendingRequest>),
}

impl SessionStore {
    /// The state's invariant: store ids are distinct.
    pub open spec fn wf(&self) -> bool {
        store_ids_distinct(self.stores@)
    }

    /// A session with no stores, no keys and no default store.
    pub fn new() -> (res: SessionStore)
        ensures
            res.wf(),
            res.stores@.len() == 0,
            res.keys@.len() == 0,
            res.default_store is None,
            res.status == StateStoreStatus::Uninitialized,
    {
        SessionStore {
            stores: Vec::new(),
            keys: Vec::new(),
            default_store: None,
            status: StateStoreStatus::Uninitialized,
        }
    }
}

/// The position of the store with the id, if any.
pub fn find_store(stores: &Vec<StoreData>, id: &String) -> (res: Option<usize>)
    requires
        store_ids_distinct(stores@),
    ensures
        match res {
            Some(i) => i < stores@.len() && stores@[i as int].store_id@ == id@ && has_store(stores@, id@)
                && store_index(stores@, id@) == i,
            None => !has_store(stores@, id@),
        },
{
    let mut i: usize = 0;
    while i < stores.len()
        invariant
            i <= stores@.len(),
            store_ids_distinct(stores@),
            forall|j: int| 0 <= j < i ==> stores@[j].store_id@ != id@,
        decreases stores@.len() - i,
    {
        if stores[i].store_id == *id {
            proof {
                assert(has_store(stores@, id@));
                let k = store_index(stores@, id@);
                if k != i {
                    if k < i {
                        assert(stores@[k].store_id@ != stores@[i as int].store_id@);
                    } else {
                        assert(stores@[i as int].store_id@ != stores@[k].store_id@);
                    }
                }
            }
            return Some(i);
        }
        i = i + 1;
    }
    None
}

/// A store record that nothing has been loaded into.
pub fn fresh_store(id: String, verified: bool) -> (res: StoreData)
    ensures
        is_fresh_store(res, id@, verified),
        res.store_id == id,
{
    StoreData {
        accounts: Vec::new(),
        storage_status: StorageStatus::Uninitialized,
        signing_key: None,
        store_id: id,
        verified,
    }
}

/// Replaces the store at a position.
fn set_store(stores: &mut Vec<StoreData>, i: usize, s: StoreData)
    requires
        i < old(stores)@.len(),
    ensures
        final(stores)@ == old(stores)@.update(i as int, s),
{
    let _ = stores.remove(i);
    stores.insert(i, s);
    assert(final(stores)@ =~= old(stores)@.update(i as int, s));
}

/// The acknowledgement that an action's detail carries.
pub fn detail_acknowledgement(detail: &Option<Detail>) -> (res: Option<String>)
    ensures
        res == detail_ack(*detail),
{
    match detail {
        Some(d) => match detail_position(d, &DataFieldType::Acknowledgement) {
            Some(i) => match &d[i].1 {
                JsonValue::String(s) => Some(s.clone()),
                _ => None,
            },
            None => None,
        },
        None => None,
    }
}

/// The text that an action's detail holds under `k`, if it holds a string there.
pub fn detail_string(detail: &Option<Detail>, k: &DataFieldType) -> (res: Option<String>)
    ensures
        res == detail_text(*detail, *k),
{
    match detail {
        Some(d) => match detail_position(d, k) {
            Some(i) => match &d[i].1 {
                JsonValue::String(s) => Some(s.clone()),
                _ => None,
            },
            None => None,
        },
        None => None,
    }
}

/// The flag that an action's detail holds under `k`, if it holds a boolean there.
pub fn detail_bool(detail: &Option<Detail>, k: &DataFieldType) -> (res: Option<bool>)
    ensures
        res == detail_flag(*detail, *k),
{
    match detail {
        Some(d) => match detail_position(d, k) {
            Some(i) => match &d[i].1 {
                JsonValue::Bool(b) => Some(*b),
                _ => None,
            },
            None => None,
        },
        None => None,
    }
}

/// The JSON object a detail map is written as: each value under its key's name.
pub fn detail_object(d: Detail) -> (res: JsonValue)
    ensures
        res@ == JsonModel::Object(detail_entries(d@)),
{
    let mut entries: Vec<(String, JsonValue)> = Vec::new();
    let mut rest = d;
    let ghost all = rest@;
    let n = rest.len();
    let mut i: usize = 0;
    while i < n
        invariant
            n == all.len(),
            i <= all.len(),
            rest@ == all.subrange(i as int, all.len() as int),
            json_model_entries(entries@) == detail_entries(all.take(i as int)),
        decreases all.len() - i,
    {
        let (k, v) = rest.remove(0);
        push_entry(&mut entries, k.name().to_string(), v);
        assert(all.take(i + 1).drop_last() =~= all.take(i as int));
        i = i + 1;
        assert(rest@ =~= all.subrange(i as int, all.len() as int));
    }
    assert(all.take(all.len() as int) =~= all);
    JsonValue::Object(JsonMap { entries })
}


/// `new` differs from `old` at most at position `i`.
pub open spec fn changed_at(old: Seq<StoreData>, new: Seq<StoreData>, i: int) -> bool {
    &&& new.len() == old.len()
    &&& 0 <= i < old.len()
    &&& forall|j: int| 0 <= j < old.len() && j != i ==> new[j] == old[j]
}

/// `b` is `a` with at most its accounts changed.
pub open spec fn same_but_accounts(a: StoreData, b: StoreData) -> bool {
    &&& b.storage_status == a.storage_status
    &&& b.signing_key == a.signing_key
    &&& b.store_id == a.store_id
    &&& b.verified == a.verified
}

/// The stores after the store `id` is unlocked: marked verified, or added as a fresh
/// verified store.
pub open spec fn verified_stores(old: Seq<StoreData>, new: Seq<StoreData>, id: Seq<char>) -> bool {
    if has_store(old, id) {
        new == old.update(store_index(old, id), StoreData { verified: true, ..old[store_index(old, id)] })
    } else {
        new.len() == old.len() + 1 && new.drop_last() == old && is_fresh_store(new.last(), id, true)
    }
}

/// The stores after a store is created: the store `id` is fresh and unverified, in
/// place of a store with the same id or added at the end.
pub open spec fn created_stores(old: Seq<StoreData>, new: Seq<StoreData>, id: Seq<char>) -> bool {
    if has_store(old, id) {
        changed_at(old, new, store_index(old, id)) && is_fresh_store(new[store_index(old, id)], id, false)
    } else {
        new.len() == old.len() + 1 && new.drop_last() == old && is_fresh_store(new.last(), id, false)
    }
}

/// The ids of `ids` that are neither in `known` nor earlier in `ids`, in order.
pub open spec fn new_ids(known: Seq<Seq<char>>, ids: Seq<Seq<char>>) -> Seq<Seq<char>>
    decreases ids.len(),
{
    if ids.len() == 0 {
        Seq::empty()
    } else {
        let rest = new_ids(known, ids.drop_last());
        if known.contains(ids.last()) || rest.contains(ids.last()) {
            rest
        } else {
            rest.push(ids.last())
        }
    }
}

/// The ids of the stores, in order.
pub open spec fn store_ids(s: Seq<StoreData>) -> Seq<Seq<char>>
    decreases s.len(),
{
    if s.len() == 0 {
        Seq::empty()
    } else {
        store_ids(s.drop_last()).push(s.last().store_id@)
    }
}

/// A store's id is among the ids of the stores exactly when some store has it.
pub proof fn lemma_store_ids(s: Seq<StoreData>)
    ensures
        store_ids(s).len() == s.len(),
        forall|i: int| 0 <= i < s.len() ==> #[trigger] store_ids(s)[i] == s[i].store_id@,
        forall|id: Seq<char>| store_ids(s).contains(id) <==> has_store(s, id),
    decreases s.len(),
{
    if s.len() > 0 {
        lemma_store_ids(s.drop_last());
        assert forall|id: Seq<char>| store_ids(s).contains(id) <==> has_store(s, id) by {
            if store_ids(s).contains(id) {
                let k = choose|k: int| 0 <= k < store_ids(s).len() && store_ids(s)[k] == id;
                assert(s[k].store_id@ == id);
            }
            if has_store(s, id) {
                let k = choose|k: int| 0 <= k < s.len() && #[trigger] s[k].store_id@ == id;
                assert(store_ids(s)[k] == id);
            }
        }
    }
}

impl SessionStore {
    /// Marks the store `id` as unlocked, adding it if it is unknown.
    pub fn verify_store(&mut self, id: &String)
        requires
            old(self).wf(),
        ensures
            final(self).wf(),
            verified_stores(old(self).stores@, final(self).stores@, id@),
            final(self).keys == old(self).keys,
            final(self).default_store == old(self).default_store,
            final(self).status == old(self).status,
    {
        match find_store(&self.stores, id) {
            Some(i) => {
                let mut s = self.stores.remove(i);
                s.verified = true;
                self.stores.insert(i, s);
                proof {
                    assert(self.stores@ =~= old(self).stores@.update(i as int, StoreData { verified: true, ..old(self).stores@[i as int] }));
                    assert forall|a: int, b: int| 0 <= a < b < self.stores@.len() implies self.stores@[a].store_id@ != self.stores@[b].store_id@ by {
                        assert(old(self).stores@[a].store_id@ != old(self).stores@[b].store_id@);
                    }
                }
            },
            None => {
                self.stores.push(fresh_store(id.clone(), true));
                proof {
                    assert(self.stores@.drop_last() =~= old(self).stores@);
                    assert forall|a: int, b: int| 0 <= a < b < self.stores@.len() implies self.stores@[a].store_id@ != self.stores@[b].store_id@ by {
                        if b < old(self).stores@.len() {
                            assert(old(self).stores@[a].store_id@ != old(self).stores@[b].store_id@);
                        } else {
                            assert(self.stores@[a] == old(self).stores@[a]);
                        }
                    }
                }
            },
        }
    }

    /// Puts a fresh, unverified store `id` in place of the store with that id, or adds it.
    pub fn put_fresh_store(&mut self, id: &String)
        requires
            old(self).wf(),
        ensures
            final(self).wf(),
            created_stores(old(self).stores@, final(self).stores@, id@),
            final(self).keys == old(self).keys,
            final(self).default_store == old(self).default_store,
            final(self).status == old(self).status,
    {
        match find_store(&self.stores, id) {
            Some(i) => {
                set_store(&mut self.stores, i, fresh_store(id.clone(), false));
                proof {
                    assert forall|a: int, b: int| 0 <= a < b < self.stores@.len() implies self.stores@[a].store_id@ != self.stores@[b].store_id@ by {
                        assert(old(self).stores@[a].store_id@ != old(self).stores@[b].store_id@);
                    }
                }
            },
            None => {
                self.stores.push(fresh_store(id.clone(), false));
                proof {
                    assert(self.stores@.drop_last() =~= old(self).stores@);
                    assert forall|a: int, b: int| 0 <= a < b < self.stores@.len() implies self.stores@[a].store_id@ != self.stores@[b].store_id@ by {
                        if b < old(self).stores@.len() {
                            assert(old(self).stores@[a].store_id@ != old(self).stores@[b].store_id@);
                        } else {
                            assert(self.stores@[a] == old(self).stores@[a]);
                        }
                    }
                }
            },
        }
    }

    /// Forgets the store `id`, if it is known.
    pub fn remove_store(&mut self, id: &String)
        requires
            old(self).wf(),
        ensures
            final(self).wf(),
            has_store(old(self).stores@, id@) ==> final(self).stores@ == old(self).stores@.remove(store_index(old(self).stores@, id@)),
            !has_store(old(self).stores@, id@) ==> final(self).stores@ == old(self).stores@,
            !has_store(final(self).stores@, id@),
            final(self).keys == old(self).keys,
            final(self).default_store == old(self).default_store,
            final(self).status == old(self).status,
    {
        match find_store(&self.stores, id) {
            Some(i) => {
                let _ = self.stores.remove(i);
                proof {
                    assert forall|a: int, b: int| 0 <= a < b < self.stores@.len() implies self.stores@[a].store_id@ != self.stores@[b].store_id@ by {
                        if a < i {
                            if b < i {
                                assert(old(self).stores@[a].store_id@ != old(self).stores@[b].store_id@);
                            } else {
                                assert(old(self).stores@[a].store_id@ != old(self).stores@[b + 1].store_id@);
                            }
                        } else {
                            assert(old(self).stores@[a + 1].store_id@ != old(self).stores@[b + 1].store_id@);
                        }
                    }
                    if has_store(self.stores@, id@) {
                        let k = choose|k: int| 0 <= k < self.stores@.len() && #[trigger] self.stores@[k].store_id@ == id@;
                        if k < i {
                            assert(old(self).stores@[k].store_id@ != old(self).stores@[i as int].store_id@);
                        } else {
                            assert(old(self).stores@[i as int].store_id@ != old(self).stores@[k + 1].store_id@);
                        }
                    }
                }
            },
            None => {},
        }
    }

    /// Locks every store: each becomes a fresh, unverified store with its id.
    pub fn reset_stores(&mut self)
        requires
            old(self).wf(),
        ensures
            final(self).wf(),
            final(self).stores@.len() == old(self).stores@.len(),
            forall|i: int| 0 <= i < old(self).stores@.len() ==> is_fresh_store(
                #[trigger] final(self).stores@[i],
                old(self).stores@[i].store_id@,
                false,
            ),
            final(self).keys == old(self).keys,
            final(self).default_store == old(self).default_store,
            final(self).status == old(self).status,
    {
        let mut res: Vec<StoreData> = Vec::new();
        let mut i: usize = 0;
        while i < self.stores.len()
            invariant
                i <= self.stores@.len(),
                res@.len() == i,
                forall|j: int| 0 <= j < i ==> is_fresh_store(#[trigger] res@[j], self.stores@[j].store_id@, false),
            decreases self.stores@.len() - i,
        {
            res.push(fresh_store(self.stores[i].store_id.clone(), false));
            i = i + 1;
        }
        let ghost prev = self.stores@;
        self.stores = res;
        assert forall|a: int, b: int| 0 <= a < b < self.stores@.len() implies self.stores@[a].store_id@ != self.stores@[b].store_id@ by {
            assert(prev[a].store_id@ != prev[b].store_id@);
        }
    }
}


/// The position of the first account with the id.
pub fn account_position(accs: &Vec<Account>, id: &String) -> (res: Option<usize>)
    ensures
        match res {
            Some(k) => first_account(accs@, id@) == Some(k as int) && k < accs@.len(),
            None => first_account(accs@, id@) is None,
        },
{
    let mut k: usize = 0;
    while k < accs.len()
        invariant
            k <= accs@.len(),
            forall|j: int| 0 <= j < k ==> accs@[j].id@ != id@,
        decreases accs@.len() - k,
    {
        if accs[k].id == *id {
            proof {
                let a = accs@;
                assert(0 <= k < a.len() && a[k as int].id@ == id@ && forall|j: int| 0 <= j < k ==> a[j].id@ != id@);
                let c = choose|i: int| 0 <= i < a.len() && a[i].id@ == id@ && forall|j: int| 0 <= j < i ==> a[j].id@ != id@;
                if c < k {
                    assert(a[c].id@ != id@);
                } else if c > k {
                    assert(a[k as int].id@ != id@);
                }
            }
            return Some(k);
        }
        k = k + 1;
    }
    None
}

/// The position of the first store that holds an account with the id, and the position
/// of the first such account in it.
pub fn account_location(stores: &Vec<StoreData>, id: &String) -> (res: Option<(usize, usize)>)
    ensures
        match res {
            Some((i, k)) => first_store_holding(stores@, id@) == Some(i as int) && i < stores@.len()
                && first_account(stores@[i as int].accounts@, id@) == Some(k as int),
            None => first_store_holding(stores@, id@) is None,
        },
{
    let mut i: usize = 0;
    while i < stores.len()
        invariant
            i <= stores@.len(),
            forall|j: int| 0 <= j < i ==> !store_holds(stores@[j], id@),
        decreases stores@.len() - i,
    {
        match account_position(&stores[i].accounts, id) {
            Some(k) => {
                proof {
                    let s = stores@;
                    assert(s[i as int].accounts@[k as int].id@ == id@) by {
                        let a = s[i as int].accounts@;
                        let c = choose|c: int| 0 <= c < a.len() && a[c].id@ == id@ && forall|j: int| 0 <= j < c ==> a[j].id@ != id@;
                    }
                    assert(store_holds(s[i as int], id@));
                    let c = choose|c: int| 0 <= c < s.len() && store_holds(s[c], id@) && forall|j: int| 0 <= j < c ==> !store_holds(s[j], id@);
                    if c < i {
                        assert(!store_holds(s[c], id@));
                    } else if c > i {
                        assert(!store_holds(s[i as int], id@));
                    }
                }
                return Some((i, k));
            },
            None => {
                proof {
                    let a = stores@[i as int].accounts@;
                    if store_holds(stores@[i as int], id@) {
                        let m = choose|m: int| 0 <= m < a.len() && #[trigger] a[m].id@ == id@;
                        let f = choose|f: int| 0 <= f <= m && a[f].id@ == id@ && forall|j: int| 0 <= j < f ==> a[j].id@ != id@;
                        lemma_first_exists(a, id@, m);
                    }
                }
            },
        }
        i = i + 1;
    }
    proof {
        let s = stores@;
        if exists|c: int| 0 <= c < s.len() && store_holds(s[c], id@) && forall|j: int| 0 <= j < c ==> !store_holds(s[j], id@) {
            let c = choose|c: int| 0 <= c < s.len() && store_holds(s[c], id@) && forall|j: int| 0 <= j < c ==> !store_holds(s[j], id@);
            assert(!store_holds(s[c], id@));
        }
    }
    None
}

/// Where an account has the id, a first account with it exists.
pub proof fn lemma_first_exists(a: Seq<Account>, id: Seq<char>, m: int)
    requires
        0 <= m < a.len(),
        a[m].id@ == id,
    ensures
        first_account(a, id) is Some,
    decreases m,
{
    if exists|j: int| 0 <= j < m && a[j].id@ == id {
        let j = choose|j: int| 0 <= j < m && a[j].id@ == id;
        lemma_first_exists(a, id, j);
    } else {
        assert(0 <= m < a.len() && a[m].id@ == id && forall|j: int| 0 <= j < m ==> a[j].id@ != id);
    }
}

/// The account with the updates applied in order.
pub fn apply_account_updates(a: Account, us: &Vec<(DataFieldType, String)>) -> (res: Account)
    ensures
        res == apply_updates(a, us@),
{
    let mut acc = a;
    let mut i: usize = 0;
    while i < us.len()
        invariant
            i <= us@.len(),
            acc == apply_updates(a, us@.take(i as int)),
        decreases us@.len() - i,
    {
        let ghost before = acc;
        let text = us[i].1.clone();
        match us[i].0 {
            DataFieldType::Username => { acc.username = text; },
            DataFieldType::Password => { acc.password = Some(text); },
            DataFieldType::Domain => { acc.domain = Some(text); },
            DataFieldType::Note => { acc.note = Some(text); },
            _ => {},
        }
        assert(us@.take(i + 1).drop_last() =~= us@.take(i as int));
        assert(acc == apply_update(before, us@[i as int]));
        i = i + 1;
    }
    assert(us@.take(us@.len() as int) =~= us@);
    acc
}

impl SessionStore {
    /// Deletes the first account with the id from the first store that holds one, and
    /// returns that store's position.
    pub fn remove_account(&mut self, id: &String) -> (res: Option<usize>)
        requires
            old(self).wf(),
        ensures
            final(self).wf(),
            match first_store_holding(old(self).stores@, id@) {
                Some(i) => res matches Some(r) && r == i && changed_at(old(self).stores@, final(self).stores@, i)
                    && same_but_accounts(old(self).stores@[i], final(self).stores@[i])
                    && final(self).stores@[i].accounts@ == old(self).stores@[i].accounts@.remove(
                        first_account(old(self).stores@[i].accounts@, id@)->0,
                    ),
                None => res is None && final(self).stores@ == old(self).stores@,
            },
            final(self).keys == old(self).keys,
            final(self).default_store == old(self).default_store,
            final(self).status == old(self).status,
    {
        match account_location(&self.stores, id) {
            Some((i, k)) => {
                let mut s = self.stores.remove(i);
                let _ = s.accounts.remove(k);
                self.stores.insert(i, s);
                proof {
                    assert forall|j: int| 0 <= j < old(self).stores@.len() && j != i implies self.stores@[j] == old(self).stores@[j] by {
                        if j < i {
                        } else {
                        }
                    }
                    assert forall|a: int, b: int| 0 <= a < b < self.stores@.len() implies self.stores@[a].store_id@ != self.stores@[b].store_id@ by {
                        assert(old(self).stores@[a].store_id@ != old(self).stores@[b].store_id@);
                    }
                }
                Some(i)
            },
            None => None,
        }
    }

    /// Appends the account to the store `store_id`; false if the store is unknown.
    pub fn add_account(&mut self, store_id: &String, account: Account) -> (res: bool)
        requires
            old(self).wf(),
        ensures
            final(self).wf(),
            res == has_store(old(self).stores@, store_id@),
            res ==> {
                let i = store_index(old(self).stores@, store_id@);
                &&& changed_at(old(self).stores@, final(self).stores@, i)
                &&& same_but_accounts(old(self).stores@[i], final(self).stores@[i])
                &&& final(self).stores@[i].accounts@ == old(self).stores@[i].accounts@.push(account)
            },
            !res ==> final(self).stores@ == old(self).stores@,
            final(self).keys == old(self).keys,
            final(self).default_store == old(self).default_store,
            final(self).status == old(self).status,
    {
        match find_store(&self.stores, store_id) {
            Some(i) => {
                let mut s = self.stores.remove(i);
                s.accounts.push(account);
                self.stores.insert(i, s);
                proof {
                    assert forall|a: int, b: int| 0 <= a < b < self.stores@.len() implies self.stores@[a].store_id@ != self.stores@[b].store_id@ by {
                        assert(old(self).stores@[a].store_id@ != old(self).stores@[b].store_id@);
                    }
                }
                true
            },
            None => false,
        }
    }

    /// Applies the updates to the first account with the id in the first store that
    /// holds one, and returns the updated account as JSON.
    pub fn edit_account(&mut self, id: &String, updates: &Vec<(DataFieldType, String)>) -> (res: Option<JsonValue>)
        requires
            old(self).wf(),
        ensures
            final(self).wf(),
            match first_store_holding(old(self).stores@, id@) {
                Some(i) => {
                    let k = first_account(old(self).stores@[i].accounts@, id@)->0;
                    let edited = apply_updates(old(self).stores@[i].accounts@[k], updates@);
                    &&& changed_at(old(self).stores@, final(self).stores@, i)
                    &&& same_but_accounts(old(self).stores@[i], final(self).stores@[i])
                    &&& final(self).stores@[i].accounts@ == old(self).stores@[i].accounts@.update(k, edited)
                    &&& res is Some && res->0@ == account_json(edited)
                },
                None => res is None && final(self).stores@ == old(self).stores@,
            },
            final(self).keys == old(self).keys,
            final(self).default_store == old(self).default_store,
            final(self).status == old(self).status,
    {
        match account_location(&self.stores, id) {
            Some((i, k)) => {
                proof {
                    let a = self.stores@[i as int].accounts@;
                    let c = choose|c: int| 0 <= c < a.len() && a[c].id@ == id@ && forall|j: int| 0 <= j < c ==> a[j].id@ != id@;
                    assert(k < a.len());
                }
                let mut s = self.stores.remove(i);
                let acc = s.accounts.remove(k);
                let edited = apply_account_updates(acc, updates);
                let json = edited.to_json();
                s.accounts.insert(k, edited);
                self.stores.insert(i, s);
                proof {
                    assert(self.stores@[i as int].accounts@ =~= old(self).stores@[i as int].accounts@.update(k as int, apply_updates(old(self).stores@[i as int].accounts@[k as int], updates@)));
                    assert forall|a: int, b: int| 0 <= a < b < self.stores@.len() implies self.stores@[a].store_id@ != self.stores@[b].store_id@ by {
                        assert(old(self).stores@[a].store_id@ != old(self).stores@[b].store_id@);
                    }
                }
                Some(json)
            },
            None => None,
        }
    }

    /// Puts the fetched accounts in the store `store_id` and marks it loaded and unlocked;
    /// false if the store is unknown.
    pub fn load_accounts(&mut self, store_id: &String, accounts: Vec<Account>) -> (res: bool)
        requires
            old(self).wf(),
        ensures
            final(self).wf(),
            res == has_store(old(self).stores@, store_id@),
            res ==> {
                let i = store_index(old(self).stores@, store_id@);
                final(self).stores@ == old(self).stores@.update(i, StoreData {
                    accounts,
                    storage_status: StorageStatus::Loaded,
                    verified: true,
                    ..old(self).stores@[i]
                })
            },
            !res ==> final(self).stores@ == old(self).stores@,
            final(self).keys == old(self).keys,
            final(self).default_store == old(self).default_store,
            final(self).status == old(self).status,
    {
        match find_store(&self.stores, store_id) {
            Some(i) => {
                let mut s = self.stores.remove(i);
                s.accounts = accounts;
                s.storage_status = StorageStatus::Loaded;
                s.verified = true;
                self.stores.insert(i, s);
                proof {
                    assert(self.stores@ =~= old(self).stores@.update(i as int, StoreData {
                        accounts,
                        storage_status: StorageStatus::Loaded,
                        verified: true,
                        ..old(self).stores@[i as int]
                    }));
                    assert forall|a: int, b: int| 0 <= a < b < self.stores@.len() implies self.stores@[a].store_id@ != self.stores@[b].store_id@ by {
                        assert(old(self).stores@[a].store_id@ != old(self).stores@[b].store_id@);
                    }
                }
                true
            },
            None => false,
        }
    }
}


impl SessionStore {
    /// Locks the store at position `i`: not loaded and not unlocked.
    pub fn lock_store(&mut self, i: usize)
        requires
            old(self).wf(),
            i < old(self).stores@.len(),
        ensures
            final(self).wf(),
            final(self).stores@ == old(self).stores@.update(i as int, StoreData {
                storage_status: StorageStatus::Uninitialized,
                verified: false,
                ..old(self).stores@[i as int]
            }),
            final(self).keys == old(self).keys,
            final(self).default_store == old(self).default_store,
            final(self).status == old(self).status,
    {
        let mut s = self.stores.remove(i);
        s.storage_status = StorageStatus::Uninitialized;
        s.verified = false;
        self.stores.insert(i, s);
        proof {
            assert(self.stores@ =~= old(self).stores@.update(i as int, StoreData {
                storage_status: StorageStatus::Uninitialized,
                verified: false,
                ..old(self).stores@[i as int]
            }));
            assert forall|a: int, b: int| 0 <= a < b < self.stores@.len() implies self.stores@[a].store_id@ != self.stores@[b].store_id@ by {
                assert(old(self).stores@[a].store_id@ != old(self).stores@[b].store_id@);
            }
        }
    }

    /// Adds a fresh, unverified store for each id that no store has yet, in order.
    pub fn add_missing_stores(&mut self, ids: &Vec<String>)
        requires
            old(self).wf(),
        ensures
            final(self).wf(),
            ({
                let added = new_ids(store_ids(old(self).stores@), text_seq(ids@));
                &&& final(self).stores@.len() == old(self).stores@.len() + added.len()
                &&& final(self).stores@.subrange(0, old(self).stores@.len() as int) == old(self).stores@
                &&& forall|k: int| 0 <= k < added.len() ==> is_fresh_store(
                    #[trigger] final(self).stores@[old(self).stores@.len() + k],
                    added[k],
                    false,
                )
            }),
            final(self).keys == old(self).keys,
            final(self).default_store == old(self).default_store,
            final(self).status == old(self).status,
    {
        let ghost known = store_ids(old(self).stores@);
        let ghost n = old(self).stores@.len();
        proof {
            lemma_store_ids(old(self).stores@);
        }
        let mut i: usize = 0;
        while i < ids.len()
            invariant
                self.wf(),
                i <= ids@.len(),
                n == old(self).stores@.len(),
                known == store_ids(old(self).stores@),
                store_ids(self.stores@) == known + new_ids(known, text_seq(ids@.take(i as int))),
                self.stores@.len() == n + new_ids(known, text_seq(ids@.take(i as int))).len(),
                self.stores@.subrange(0, n as int) == old(self).stores@,
                forall|k: int| 0 <= k < new_ids(known, text_seq(ids@.take(i as int))).len() ==> is_fresh_store(
                    #[trigger] self.stores@[n + k],
                    new_ids(known, text_seq(ids@.take(i as int)))[k],
                    false,
                ),
                self.keys == old(self).keys,
                self.default_store == old(self).default_store,
                self.status == old(self).status,
            decreases ids@.len() - i,
        {
            let ghost rest = new_ids(known, text_seq(ids@.take(i as int)));
            let ghost prev = self.stores@;
            assert(ids@.take(i + 1).drop_last() =~= ids@.take(i as int));
            assert(text_seq(ids@.take(i + 1)) == text_seq(ids@.take(i as int)).push(ids@[i as int]@));
            let ghost t1 = text_seq(ids@.take(i + 1));
            assert(t1.drop_last() =~= text_seq(ids@.take(i as int)));
            assert(t1.last() == ids@[i as int]@);
            proof {
                lemma_store_ids(self.stores@);
                assert((known + rest).contains(ids@[i as int]@) <==> (known.contains(ids@[i as int]@) || rest.contains(ids@[i as int]@))) by {
                    let x = ids@[i as int]@;
                    if (known + rest).contains(x) {
                        let j = choose|j: int| 0 <= j < (known + rest).len() && (known + rest)[j] == x;
                        if j < known.len() {
                            assert(known[j] == x);
                        } else {
                            assert(rest[j - known.len()] == x);
                        }
                    }
                    if known.contains(x) {
                        let j = choose|j: int| 0 <= j < known.len() && known[j] == x;
                        assert((known + rest)[j] == x);
                    }
                    if rest.contains(x) {
                        let j = choose|j: int| 0 <= j < rest.len() && rest[j] == x;
                        assert((known + rest)[known.len() + j] == x);
                    }
                }
            }
            match find_store(&self.stores, &ids[i]) {
                Some(_) => {
                    assert(new_ids(known, t1) == rest);
                },
                None => {
                    self.stores.push(fresh_store(ids[i].clone(), false));
                    proof {
                        assert(new_ids(known, t1) == rest.push(ids@[i as int]@));
                        assert(self.stores@.drop_last() =~= prev);
                        assert(store_ids(self.stores@) =~= known + rest.push(ids@[i as int]@));
                        assert(self.stores@.subrange(0, n as int) =~= prev.subrange(0, n as int));
                        assert forall|a: int, b: int| 0 <= a < b < self.stores@.len() implies self.stores@[a].store_id@ != self.stores@[b].store_id@ by {
                            if b < prev.len() {
                                assert(prev[a].store_id@ != prev[b].store_id@);
                            } else {
                                assert(self.stores@[a] == prev[a]);
                            }
                        }
                        assert forall|k: int| 0 <= k < rest.push(ids@[i as int]@).len() implies is_fresh_store(
                            #[trigger] self.stores@[n + k],
                            rest.push(ids@[i as int]@)[k],
                            false,
                        ) by {
                            if k < rest.len() {
                                assert(self.stores@[n + k] == prev[n + k]);
                            }
                        }
                    }
                },
            }
            i = i + 1;
        }
        assert(ids@.take(ids@.len() as int) =~= ids@);
    }
}


/// The text of an optional string.
pub open spec fn opt_seq(o: Option<String>) -> Option<Seq<char>> {
    match o {
        Some(t) => Some(t@),
        None => None,
    }
}

/// JSON strings of the texts, in order.
pub open spec fn text_models(v: Seq<String>) -> Seq<JsonModel>
    decreases v.len(),
{
    if v.len() == 0 {
        Seq::empty()
    } else {
        text_models(v.drop_last()).push(JsonModel::String(v.last()@))
    }
}

/// The keys as the session reports them, in order.
pub open spec fn key_models(v: Seq<Key>) -> Seq<JsonModel>
    decreases v.len(),
{
    if v.len() == 0 {
        Seq::empty()
    } else {
        key_models(v.drop_last()).push(key_state_json(v.last()))
    }
}

/// The port that asked the request with the acknowledgement, if it is known.
pub open spec fn asking_port(p: PortRegistry, ack: Option<String>) -> Option<Seq<char>> {
    match ack {
        Some(a) => p.port_of(a@),
        None => None,
    }
}

/// The ports are unchanged.
pub open spec fn ports_same(p: PortRegistry, q: PortRegistry) -> bool {
    &&& q.connected == p.connected
    &&& q.listeners == p.listeners
    &&& q.port_ids == p.port_ids
    &&& q.requests == p.requests
}

/// The record of which port asked the request with the acknowledgement is dropped.
pub open spec fn port_forgotten(p: PortRegistry, q: PortRegistry, ack: Option<String>) -> bool {
    &&& q.wf()
    &&& q.connected == p.connected
    &&& q.listeners == p.listeners
    &&& q.requests == p.requests
    &&& match ack {
        Some(a) => q.port_of(a@) is None && forall|b: Seq<char>| b != a@ ==> #[trigger] q.port_of(b) == p.port_of(b),
        None => q.port_ids == p.port_ids,
    }
}

/// No port listens to the store `id` any more.
pub open spec fn store_unlistened(p: PortRegistry, q: PortRegistry, id: Seq<char>) -> bool {
    &&& q.wf()
    &&& q.connected == p.connected
    &&& q.port_ids == p.port_ids
    &&& q.requests == p.requests
    &&& q.listening() == p.listening().filter(|x: (Seq<char>, Seq<char>)| x.0 != id)
}

/// The event goes to the ports that its target names in `p`, and is global exactly when it
/// goes to every port.
pub open spec fn sent_to(b: Broadcast, p: PortRegistry) -> bool {
    &&& text_seq(b.recipients@) == target_names(p, b.event.notification_target)
    &&& b.event.is_global == (b.event.notification_target is All)
}

/// The event's store, resource, acknowledgement and meta.
pub open spec fn event_about(e: SessionEvent, index: Option<Seq<char>>, resource: Resource, ack: Option<String>) -> bool {
    &&& opt_seq(e.store_id_index) == index
    &&& e.resource is Some
    &&& e.resource->0@ == seq![resource]
    &&& e.acknowledgement == ack
    &&& e.meta is None
}

/// The event carries a detail map with the given content.
pub open spec fn data_is(e: SessionEvent, data: Seq<(DataFieldType, JsonModel)>) -> bool {
    e.data matches Some(d) && detail_model(d@) == data
}

/// The detail of a failed store request: the store id and the response's detail, for a
/// response of the expected kind.
pub open spec fn failure_payload(store_id: Seq<char>, detail: Option<Detail>) -> Seq<(DataFieldType, JsonModel)> {
    match detail {
        Some(d) => seq![
            (DataFieldType::StoreID, JsonModel::String(store_id)),
            (DataFieldType::Error, JsonModel::Object(detail_entries(d@))),
        ],
        None => Seq::empty(),
    }
}

/// The detail of a create response, if the response is one.
pub open spec fn create_detail(r: ResponseEnum) -> Option<Detail> {
    match r {
        ResponseEnum::CreateResponse(c) => Some(c.detail),
        _ => None,
    }
}

/// The detail of a store deletion response, if the response is one.
pub open spec fn delete_store_detail(r: ResponseEnum) -> Option<Detail> {
    match r {
        ResponseEnum::DeleteStoreResponse(c) => Some(c.detail),
        _ => None,
    }
}

/// Appends an entry to a detail map.
pub fn detail_push(d: &mut Detail, k: DataFieldType, v: JsonValue)
    ensures
        final(d)@ == old(d)@.push((k, v)),
        detail_model(final(d)@) == detail_model(old(d)@).push((k, v@)),
{
    d.push((k, v));
    assert(final(d)@.drop_last() =~= old(d)@);
}

/// An event about one resource, global exactly when it goes to every port.
fn make_event(
    event_type: SessionEventType,
    data: Option<Detail>,
    resource: Resource,
    acknowledgement: Option<String>,
    store_id_index: Option<String>,
    notification_target: NotificationTarget,
) -> (e: SessionEvent)
    ensures
        e.event_type == event_type,
        e.data == data,
        e.meta is None,
        e.resource is Some,
        e.resource->0@ == seq![resource],
        e.acknowledgement == acknowledgement,
        e.store_id_index == store_id_index,
        e.notification_target == notification_target,
        e.is_global == (notification_target is All),
{
    let is_global = match notification_target {
        NotificationTarget::All => true,
        _ => false,
    };
    let mut resources: Vec<Resource> = Vec::new();
    resources.push(resource);
    assert(resources@ =~= seq![resource]);
    SessionEvent {
        data,
        event_type,
        meta: None,
        resource: Some(resources),
        is_global,
        acknowledgement,
        store_id_index,
        notification_target,
    }
}

/// The event with the ports it goes to.
fn broadcast(ports: &PortRegistry, event: SessionEvent) -> (b: Broadcast)
    requires
        event.is_global == (event.notification_target is All),
    ensures
        b.event == event,
        sent_to(b, *ports),
{
    let recipients = ports.targets(&event.notification_target);
    Broadcast { event, recipients }
}

/// The target for the port that asked, or nobody.
fn port_or_nobody(port: Option<String>) -> (t: NotificationTarget)
    ensures
        port_target(t, opt_seq(port)),
{
    match port {
        Some(port_id) => NotificationTarget::Port { port_id },
        None => NotificationTarget::Nobody,
    }
}

/// Forgets which port asked the request with the acknowledgement, and returns it.
fn take_asking_port(ports: &mut PortRegistry, ack: &Option<String>) -> (res: Option<String>)
    requires
        old(ports).wf(),
    ensures
        port_forgotten(*old(ports), *final(ports), *ack),
        opt_seq(res) == asking_port(*old(ports), *ack),
{
    match ack {
        Some(a) => ports.take_port_id(a),
        None => None,
    }
}

/// Stops every port from listening to the store `id`.
fn unlisten_store(ports: &mut PortRegistry, id: &String)
    requires
        old(ports).wf(),
    ensures
        store_unlistened(*old(ports), *final(ports), id@),
{
    let listeners = ports.listeners_of(id);
    ports.stop_listening(id, &listeners);
    assert(ports.listening() =~= old(ports).listening().filter(|x: (Seq<char>, Seq<char>)| x.0 != id@));
}

/// JSON strings of the texts.
pub fn texts_json(v: &Vec<String>) -> (res: JsonValue)
    ensures
        res@ == JsonModel::Array(text_models(v@)),
{
    let mut items: Vec<JsonValue> = Vec::new();
    let mut i: usize = 0;
    while i < v.len()
        invariant
            i <= v@.len(),
            json_model_seq(items@) == text_models(v@.take(i as int)),
        decreases v@.len() - i,
    {
        let ghost prev = items@;
        let item = JsonValue::String(v[i].clone());
        assert(item@ == JsonModel::String(v@[i as int]@));
        items.push(item);
        assert(items@.drop_last() =~= prev);
        assert(v@.take(i + 1).drop_last() =~= v@.take(i as int));
        i = i + 1;
    }
    assert(v@.take(v@.len() as int) =~= v@);
    JsonValue::Array(items)
}

/// The keys as the session reports them.
pub fn keys_json(v: &Vec<Key>) -> (res: JsonValue)
    ensures
        res@ == JsonModel::Array(key_models(v@)),
{
    let mut items: Vec<JsonValue> = Vec::new();
    let mut i: usize = 0;
    while i < v.len()
        invariant
            i <= v@.len(),
            json_model_seq(items@) == key_models(v@.take(i as int)),
        decreases v@.len() - i,
    {
        let ghost prev = items@;
        items.push(v[i].to_state_json());
        assert(items@.drop_last() =~= prev);
        assert(v@.take(i + 1).drop_last() =~= v@.take(i as int));
        i = i + 1;
    }
    assert(v@.take(v@.len() as int) =~= v@);
    JsonValue::Array(items)
}

/// The detail of a failed store request.
fn failure_detail(store_id: &String, detail: Option<&Detail>) -> (res: Detail)
    ensures
        detail_model(res@) == failure_payload(store_id@, match detail { Some(d) => Some(*d), None => None }),
{
    let mut data: Detail = Vec::new();
    match detail {
        Some(d) => {
            detail_push(&mut data, DataFieldType::StoreID, JsonValue::String(store_id.clone()));
            let c = copy_detail(d);
            proof {
                lemma_detail_entries_same(c@, d@);
            }
            detail_push(&mut data, DataFieldType::Error, detail_object(c));
            proof {
                reveal_with_fuel(detail_model, 3);
                assert(data@.drop_last().drop_last() =~= Seq::<(DataFieldType, JsonValue)>::empty());
            }
        },
        None => {},
    }
    data
}

proof fn lemma_detail_entries_same(e: Seq<(DataFieldType, JsonValue)>, d: Seq<(DataFieldType, JsonValue)>)
    requires
        detail_model(e) == detail_model(d),
    ensures
        detail_entries(e) == detail_entries(d),
    decreases d.len(),
{
    lemma_detail_model_len(e);
    lemma_detail_model_len(d);
    if d.len() > 0 {
        assert(detail_model(e).drop_last() =~= detail_model(e.drop_last()));
        assert(detail_model(d).drop_last() =~= detail_model(d.drop_last()));
        lemma_detail_entries_same(e.drop_last(), d.drop_last());
        assert(detail_model(e)[e.len() - 1] == detail_model(d)[d.len() - 1]);
        assert(e.last().0 == d.last().0);
        assert(e.last().1@ == d.last().1@);
    } else {
        assert(e.len() == 0);
    }
}

proof fn lemma_detail_model_len(d: Seq<(DataFieldType, JsonValue)>)
    ensures
        detail_model(d).len() == d.len(),
    decreases d.len(),
{
    if d.len() > 0 {
        lemma_detail_model_len(d.drop_last());
    }
}


/// The session fields other than the stores are unchanged.
pub open spec fn rest_same(s: SessionStore, t: SessionStore) -> bool {
    &&& t.keys == s.keys
    &&& t.default_store == s.default_store
    &&& t.status == s.status
}

/// The content of the detail of a login event.
pub open spec fn login_data(id: Seq<char>, is_default: bool) -> Seq<(DataFieldType, JsonModel)> {
    seq![
        (DataFieldType::Verified, JsonModel::Bool(true)),
        (DataFieldType::StoreID, JsonModel::String(id)),
        (DataFieldType::IsDefault, JsonModel::Bool(is_default)),
    ]
}

/// The content of the detail naming one store.
pub open spec fn store_data(id: Seq<char>) -> Seq<(DataFieldType, JsonModel)> {
    seq![(DataFieldType::StoreID, JsonModel::String(id))]
}

/// The content of the detail of an init event.
pub open spec fn init_data(ids: Seq<String>, keys: Seq<Key>) -> Seq<(DataFieldType, JsonModel)> {
    seq![
        (DataFieldType::StoreIDList, JsonModel::Array(text_models(ids))),
        (DataFieldType::Keys, JsonModel::Array(key_models(keys))),
    ]
}

/// Unlocking the store `id`: it is marked verified (added if unknown), made the default
/// when asked, the listeners of the store the asking port used before stop listening,
/// and a login event goes to the store's listeners.
pub open spec fn login_step(
    s: SessionStore, p: PortRegistry, id: Seq<char>, is_default: bool, prev: Option<Seq<char>>,
    ack: Option<String>, t: SessionStore, q: PortRegistry, out: Option<Broadcast>,
) -> bool {
    &&& verified_stores(s.stores@, t.stores@, id)
    &&& t.keys == s.keys
    &&& t.status == s.status
    &&& if is_default { opt_seq(t.default_store) == Some(id) } else { t.default_store == s.default_store }
    &&& out is Some
    &&& sent_to(out->0, p)
    &&& out->0.event.event_type == SessionEventType::Login
    &&& data_is(out->0.event, login_data(id, is_default))
    &&& store_target(out->0.event.notification_target, id)
    &&& event_about(out->0.event, Some(id), Resource::Auth, ack)
    &&& match prev {
        Some(pv) => if pv != id { store_unlistened(p, q, pv) } else { ports_same(p, q) },
        None => ports_same(p, q),
    }
}

/// Locking the store `id`: an unlocked store is locked and a logout event goes to its
/// listeners; a locked one gets a logout error for nobody; either way the store's
/// listeners stop listening. An unknown store changes nothing.
pub open spec fn logout_step(
    s: SessionStore, p: PortRegistry, id: Seq<char>, ack: Option<String>,
    t: SessionStore, q: PortRegistry, out: Option<Broadcast>,
) -> bool {
    &&& rest_same(s, t)
    &&& if has_store(s.stores@, id) {
        let i = store_index(s.stores@, id);
        &&& out is Some
        &&& sent_to(out->0, p)
        &&& event_about(out->0.event, Some(id), Resource::Auth, ack)
        &&& store_unlistened(p, q, id)
        &&& if s.stores@[i].verified {
            &&& t.stores@ == s.stores@.update(i, StoreData {
                storage_status: StorageStatus::Uninitialized,
                verified: false,
                ..s.stores@[i]
            })
            &&& out->0.event.event_type == SessionEventType::Logout
            &&& data_is(out->0.event, store_data(id))
            &&& store_target(out->0.event.notification_target, id)
        } else {
            &&& t.stores@ == s.stores@
            &&& out->0.event.event_type == SessionEventType::LogoutError
            &&& out->0.event.data is None
            &&& out->0.event.notification_target is Nobody
        }
    } else {
        &&& t.stores@ == s.stores@
        &&& out is None
        &&& ports_same(p, q)
    }
}

/// Locking every store: each becomes fresh and locked, and a logout event goes to every
/// port.
pub open spec fn logout_all_step(
    s: SessionStore, p: PortRegistry, ack: Option<String>, t: SessionStore, q: PortRegistry,
    out: Option<Broadcast>,
) -> bool {
    &&& rest_same(s, t)
    &&& t.stores@.len() == s.stores@.len()
    &&& forall|i: int| 0 <= i < s.stores@.len() ==> is_fresh_store(#[trigger] t.stores@[i], s.stores@[i].store_id@, false)
    &&& out is Some
    &&& sent_to(out->0, p)
    &&& out->0.event.event_type == SessionEventType::Logout
    &&& out->0.event.data is None
    &&& out->0.event.notification_target is All
    &&& event_about(out->0.event, None, Resource::Auth, ack)
    &&& ports_same(p, q)
}

/// Deleting an entry: an account is removed from the first store that holds it, and the
/// event goes to that store's listeners, or to every port when no store held it.
pub open spec fn deleted_step(
    s: SessionStore, p: PortRegistry, resource: Resource, rid: Seq<char>, data: Detail,
    ack: Option<String>, t: SessionStore, q: PortRegistry, out: Option<Broadcast>,
) -> bool {
    &&& rest_same(s, t)
    &&& ports_same(p, q)
    &&& out is Some
    &&& sent_to(out->0, p)
    &&& out->0.event.event_type == SessionEventType::Delete
    &&& if resource == Resource::Account {
        &&& out->0.event.data == Some(data)
        &&& match first_store_holding(s.stores@, rid) {
            Some(i) => {
                &&& changed_at(s.stores@, t.stores@, i)
                &&& same_but_accounts(s.stores@[i], t.stores@[i])
                &&& t.stores@[i].accounts@ == s.stores@[i].accounts@.remove(first_account(s.stores@[i].accounts@, rid)->0)
                &&& store_target(out->0.event.notification_target, s.stores@[i].store_id@)
                &&& event_about(out->0.event, Some(s.stores@[i].store_id@), resource, ack)
            },
            None => {
                &&& t.stores@ == s.stores@
                &&& out->0.event.notification_target is All
                &&& event_about(out->0.event, None, resource, ack)
            },
        }
    } else {
        &&& t.stores@ == s.stores@
        &&& out->0.event.data is None
        &&& out->0.event.notification_target is All
        &&& event_about(out->0.event, None, resource, ack)
    }
}

/// Creating an entry: an account is appended to its store, and the event goes to the
/// store's listeners; other resources change nothing and are told to every port.
pub open spec fn created_step(
    s: SessionStore, p: PortRegistry, store_id: Seq<char>, resource: Resource, account: Option<Account>,
    ack: Option<String>, t: SessionStore, q: PortRegistry, out: Option<Broadcast>,
) -> bool {
    &&& rest_same(s, t)
    &&& ports_same(p, q)
    &&& out is Some
    &&& sent_to(out->0, p)
    &&& out->0.event.event_type == SessionEventType::Create
    &&& if resource == Resource::Account {
        &&& store_target(out->0.event.notification_target, store_id)
        &&& event_about(out->0.event, Some(store_id), resource, ack)
        &&& if has_store(s.stores@, store_id) {
            let i = store_index(s.stores@, store_id);
            &&& changed_at(s.stores@, t.stores@, i)
            &&& same_but_accounts(s.stores@[i], t.stores@[i])
            &&& t.stores@[i].accounts@ == s.stores@[i].accounts@.push(account->0)
            &&& data_is(out->0.event, seq![(DataFieldType::Data, account_json(account->0))])
        } else {
            &&& t.stores@ == s.stores@
            &&& data_is(out->0.event, Seq::empty())
        }
    } else {
        &&& t.stores@ == s.stores@
        &&& out->0.event.data is None
        &&& out->0.event.notification_target is All
        &&& event_about(out->0.event, None, resource, ack)
    }
}

/// Editing an entry: the updates are applied to the first account with the id in the
/// first store that holds one, and the event, with the updated account, goes to the
/// listeners of the store named in the response.
pub open spec fn edited_step(
    s: SessionStore, p: PortRegistry, store_id: Seq<char>, resource: Resource, rid: Seq<char>,
    updates: Seq<(DataFieldType, String)>, ack: Option<String>, t: SessionStore, q: PortRegistry,
    out: Option<Broadcast>,
) -> bool {
    &&& rest_same(s, t)
    &&& ports_same(p, q)
    &&& out is Some
    &&& sent_to(out->0, p)
    &&& store_target(out->0.event.notification_target, store_id)
    &&& event_about(out->0.event, Some(store_id), resource, ack)
    &&& if resource == Resource::Account {
        &&& out->0.event.event_type == SessionEventType::Update
        &&& match first_store_holding(s.stores@, rid) {
            Some(i) => {
                let k = first_account(s.stores@[i].accounts@, rid)->0;
                let edited = apply_updates(s.stores@[i].accounts@[k], updates);
                &&& changed_at(s.stores@, t.stores@, i)
                &&& same_but_accounts(s.stores@[i], t.stores@[i])
                &&& t.stores@[i].accounts@ == s.stores@[i].accounts@.update(k, edited)
                &&& data_is(out->0.event, seq![
                    (DataFieldType::ResourceID, JsonModel::String(rid)),
                    (DataFieldType::Data, account_json(edited)),
                ])
            },
            None => {
                &&& t.stores@ == s.stores@
                &&& data_is(out->0.event, Seq::empty())
            },
        }
    } else {
        &&& t.stores@ == s.stores@
        &&& out->0.event.event_type == SessionEventType::Create
        &&& out->0.event.data is None
    }
}

/// Fetched accounts: for a known store and accounts, they replace the store's accounts,
/// the store is loaded and unlocked, and a refresh with the fetch's detail goes to its
/// listeners. Otherwise nothing changes.
pub open spec fn fetched_step(
    s: SessionStore, p: PortRegistry, store_id: Seq<char>, resource: Resource, accounts: Vec<Account>,
    detail: Detail, ack: Option<String>, t: SessionStore, q: PortRegistry, out: Option<Broadcast>,
) -> bool {
    &&& rest_same(s, t)
    &&& ports_same(p, q)
    &&& if has_store(s.stores@, store_id) && resource == Resource::Account {
        let i = store_index(s.stores@, store_id);
        &&& t.stores@ == s.stores@.update(i, StoreData {
            accounts,
            storage_status: StorageStatus::Loaded,
            verified: true,
            ..s.stores@[i]
        })
        &&& out is Some
        &&& sent_to(out->0, p)
        &&& out->0.event.event_type == SessionEventType::Refreshed
        &&& out->0.event.data == Some(detail)
        &&& store_target(out->0.event.notification_target, store_id)
        &&& event_about(out->0.event, Some(store_id), resource, ack)
    } else {
        &&& t.stores@ == s.stores@
        &&& out is None
    }
}

/// The native host's report: each store id not yet known is added as a fresh, locked
/// store, the keys are replaced, the session is loaded, and every port is told the
/// store ids and keys.
pub open spec fn init_step(
    s: SessionStore, p: PortRegistry, ids: Seq<String>, keys: Vec<Key>, ack: Option<String>,
    t: SessionStore, q: PortRegistry, out: Option<Broadcast>,
) -> bool {
    let added = new_ids(store_ids(s.stores@), text_seq(ids));
    &&& t.stores@.len() == s.stores@.len() + added.len()
    &&& t.stores@.subrange(0, s.stores@.len() as int) == s.stores@
    &&& forall|k: int| 0 <= k < added.len() ==> is_fresh_store(#[trigger] t.stores@[s.stores@.len() + k], added[k], false)
    &&& t.keys == keys
    &&& t.default_store == s.default_store
    &&& t.status == StateStoreStatus::Loaded
    &&& ports_same(p, q)
    &&& out is Some
    &&& sent_to(out->0, p)
    &&& out->0.event.event_type matches SessionEventType::Init(d) && detail_model(d@) == init_data(ids, keys@)
    &&& data_is(out->0.event, init_data(ids, keys@))
    &&& out->0.event.notification_target is All
    &&& event_about(out->0.event, None, Resource::Store, ack)
}

/// A request failed: the port that asked it is forgotten and an event goes to it.
pub open spec fn request_failed_step(
    s: SessionStore, p: PortRegistry, req: PendingRequest, event_type: SessionEventType,
    data: Option<Detail>, resource: Resource, ack: Option<String>, t: SessionStore, q: PortRegistry,
    out: Option<Broadcast>,
) -> bool {
    &&& t == s
    &&& port_forgotten(p, q, req.acknowledgement)
    &&& out is Some
    &&& sent_to(out->0, p)
    &&& out->0.event.event_type == event_type
    &&& out->0.event.data == data
    &&& port_target(out->0.event.notification_target, asking_port(p, req.acknowledgement))
    &&& event_about(out->0.event, opt_seq(req.store_id), resource, ack)
}

/// A store request was answered: the store is put in place or dropped, the port that
/// asked is forgotten, and every port is told, with the store id as payload.
pub open spec fn store_answered_step(
    s: SessionStore, p: PortRegistry, id: Seq<char>, req_ack: Option<String>, created: bool,
    ack: Option<String>, t: SessionStore, q: PortRegistry, out: Option<Broadcast>,
) -> bool {
    &&& rest_same(s, t)
    &&& if created {
        created_stores(s.stores@, t.stores@, id)
    } else {
        &&& (has_store(s.stores@, id) ==> t.stores@ == s.stores@.remove(store_index(s.stores@, id)))
        &&& (!has_store(s.stores@, id) ==> t.stores@ == s.stores@)
    }
    &&& port_forgotten(p, q, req_ack)
    &&& out is Some
    &&& sent_to(out->0, p)
    &&& if created {
        out->0.event.event_type matches SessionEventType::StoreCreated(d, sid) && detail_model(d@) == store_data(id) && sid@ == id
    } else {
        out->0.event.event_type matches SessionEventType::StoreDeleted(d, sid) && detail_model(d@) == store_data(id) && sid@ == id
    }
    &&& data_is(out->0.event, store_data(id))
    &&& out->0.event.notification_target is All
    &&& event_about(out->0.event, Some(id), Resource::Store, ack)
}

/// A store request failed: the port that asked is forgotten and told, with the store id
/// and the response's detail as payload.
pub open spec fn store_failed_step(
    s: SessionStore, p: PortRegistry, req: PendingRequest, detail: Option<Detail>, created: bool,
    ack: Option<String>, t: SessionStore, q: PortRegistry, out: Option<Broadcast>,
) -> bool {
    let id = match req.store_id { Some(x) => x@, None => Seq::empty() };
    &&& t == s
    &&& port_forgotten(p, q, req.acknowledgement)
    &&& out is Some
    &&& sent_to(out->0, p)
    &&& if created {
        out->0.event.event_type matches SessionEventType::StoreCreationFailed(d, sid) && detail_model(d@) == failure_payload(id, detail) && sid@ == id
    } else {
        out->0.event.event_type matches SessionEventType::StoreDeletionFailed(d, sid) && detail_model(d@) == failure_payload(id, detail) && sid@ == id
    }
    &&& out->0.event.data is None
    &&& port_target(out->0.event.notification_target, asking_port(p, req.acknowledgement))
    &&& event_about(out->0.event, Some(id), Resource::Store, ack)
}

/// Nothing changes and nothing is sent.
pub open spec fn quiet_step(s: SessionStore, p: PortRegistry, t: SessionStore, q: PortRegistry, out: Option<Broadcast>) -> bool {
    &&& t == s
    &&& ports_same(p, q)
    &&& out is None
}

/// What applying an action does to the session and the ports, and what it sends.
pub open spec fn session_step(
    w: SessionActionWrapper, s: SessionStore, p: PortRegistry, t: SessionStore, q: PortRegistry,
    out: Option<Broadcast>,
) -> bool {
    let ack = detail_ack(w.detail);
    match w.action {
        SessionAction::Login { .. } => login_step(
            s,
            p,
            detail_text(w.detail, DataFieldType::StoreID)->0@,
            detail_flag(w.detail, DataFieldType::IsDefault)->0,
            opt_seq(detail_text(w.detail, DataFieldType::PrevStoreID)),
            ack,
            t,
            q,
            out,
        ),
        SessionAction::LoginError(req) => request_failed_step(
            s, p, req, SessionEventType::LoginError, None, Resource::Auth, req.acknowledgement, t, q, out),
        SessionAction::Logout(Some(id), _) => logout_step(s, p, id@, ack, t, q, out),
        SessionAction::Logout(None, _) => logout_all_step(s, p, ack, t, q, out),
        SessionAction::Init { store_ids, keys } => init_step(s, p, store_ids@, keys, ack, t, q, out),
        SessionAction::InitStarted(a) => {
            &&& t.stores@ == s.stores@
            &&& t.keys == s.keys
            &&& t.default_store == s.default_store
            &&& t.status == StateStoreStatus::Loading(a)
            &&& ports_same(p, q)
            &&& out is None
        },
        SessionAction::DataFetched { store_id, resource, accounts, detail } =>
            fetched_step(s, p, store_id@, resource, accounts, detail, ack, t, q, out),
        SessionAction::DataCreated { store_id, resource, account } =>
            created_step(s, p, store_id@, resource, account, ack, t, q, out),
        SessionAction::StoreCreated { store_id, acknowledgement } =>
            store_answered_step(s, p, store_id@, acknowledgement, true, ack, t, q, out),
        SessionAction::StoreDeleted { store_id, acknowledgement } =>
            store_answered_step(s, p, store_id@, acknowledgement, false, ack, t, q, out),
        SessionAction::StoreCreationFailed(req, resp) =>
            store_failed_step(s, p, req, create_detail(resp), true, ack, t, q, out),
        SessionAction::StoreDeletionFailed(req, resp) =>
            store_failed_step(s, p, req, delete_store_detail(resp), false, ack, t, q, out),
        SessionAction::DataEdited { store_id, resource, instance_id, updates } =>
            edited_step(s, p, store_id@, resource, instance_id@, updates@, ack, t, q, out),
        SessionAction::DataDeleted(resource, rid, data) =>
            deleted_step(s, p, resource, rid@, data, ack, t, q, out),
        SessionAction::DataCreationFailed(resource, data, Some(req)) => if resource == Resource::Account {
            request_failed_step(s, p, req, SessionEventType::CreationFailed, Some(data), resource, ack, t, q, out)
        } else {
            &&& t == s
            &&& port_forgotten(p, q, req.acknowledgement)
            &&& out is None
        },
        SessionAction::DataCreationFailed(_, _, None) => quiet_step(s, p, t, q, out),
        SessionAction::LogoutError => quiet_step(s, p, t, q, out),
        SessionAction::DataLoading(_, _) => quiet_step(s, p, t, q, out),
        SessionAction::DataDeletionFailed(_, _) => quiet_step(s, p, t, q, out),
        SessionAction::DataEditFailed(_, _, _) => quiet_step(s, p, t, q, out),
    }
}

/// What an action needs to be applied: a created account comes with the account, and
/// an answered store request with its acknowledgement.
pub open spec fn action_ready(a: SessionAction) -> bool {
    match a {
        SessionAction::DataCreated { resource, account, .. } => resource == Resource::Account ==> account is Some,
        SessionAction::StoreCreated { acknowledgement, .. } => acknowledgement is Some,
        SessionAction::StoreDeleted { acknowledgement, .. } => acknowledgement is Some,
        _ => true,
    }
}

/// What a login needs of its detail: the store, as a string under `StoreID`, and whether
/// it becomes the default, as a boolean under `IsDefault`.
pub open spec fn detail_ready(w: SessionActionWrapper) -> bool {
    w.action is Login ==> detail_text(w.detail, DataFieldType::StoreID) is Some
        && detail_flag(w.detail, DataFieldType::IsDefault) is Some
}


fn on_login(
    store: SessionStore, ports: &mut PortRegistry, id: String, is_default: bool,
    prev: Option<String>, ack: Option<String>,
) -> (res: (SessionStore, Option<Broadcast>))
    requires
        store.wf(),
        old(ports).wf(),
    ensures
        res.0.wf(),
        final(ports).wf(),
        login_step(store, *old(ports), id@, is_default, opt_seq(prev), ack, res.0, *final(ports), res.1),
{
    let mut st = store;
    st.verify_store(&id);
    if is_default {
        st.default_store = Some(id.clone());
    }
    let mut data: Detail = Vec::new();
    detail_push(&mut data, DataFieldType::Verified, JsonValue::Bool(true));
    detail_push(&mut data, DataFieldType::StoreID, JsonValue::String(id.clone()));
    detail_push(&mut data, DataFieldType::IsDefault, JsonValue::Bool(is_default));
    proof {
        reveal_with_fuel(detail_model, 4);
        assert(data@.drop_last().drop_last().drop_last() =~= Seq::<(DataFieldType, JsonValue)>::empty());
        assert(detail_model(data@) =~= login_data(id@, is_default));
    }
    let event = make_event(
        SessionEventType::Login,
        Some(data),
        Resource::Auth,
        ack,
        Some(id.clone()),
        NotificationTarget::Store { store_id: id.clone() },
    );
    let b = broadcast(ports, event);
    match prev {
        Some(pv) => {
            if pv != id {
                unlisten_store(ports, &pv);
            }
        },
        None => {},
    }
    (st, Some(b))
}

fn on_logout(store: SessionStore, ports: &mut PortRegistry, id: String, ack: Option<String>) -> (res: (
    SessionStore,
    Option<Broadcast>,
))
    requires
        store.wf(),
        old(ports).wf(),
    ensures
        res.0.wf(),
        final(ports).wf(),
        logout_step(store, *old(ports), id@, ack, res.0, *final(ports), res.1),
{
    let mut st = store;
    match find_store(&st.stores, &id) {
        Some(i) => {
            let b = if st.stores[i].verified {
                st.lock_store(i);
                let mut data: Detail = Vec::new();
                detail_push(&mut data, DataFieldType::StoreID, JsonValue::String(id.clone()));
                proof {
                    reveal_with_fuel(detail_model, 2);
                    assert(data@.drop_last() =~= Seq::<(DataFieldType, JsonValue)>::empty());
                    assert(detail_model(data@) =~= store_data(id@));
                }
                let event = make_event(
                    SessionEventType::Logout,
                    Some(data),
                    Resource::Auth,
                    ack,
                    Some(id.clone()),
                    NotificationTarget::Store { store_id: id.clone() },
                );
                broadcast(ports, event)
            } else {
                let event = make_event(
                    SessionEventType::LogoutError,
                    None,
                    Resource::Auth,
                    ack,
                    Some(id.clone()),
                    NotificationTarget::Nobody,
                );
                broadcast(ports, event)
            };
            unlisten_store(ports, &id);
            (st, Some(b))
        },
        None => (st, None),
    }
}

fn on_logout_all(store: SessionStore, ports: &mut PortRegistry, ack: Option<String>) -> (res: (
    SessionStore,
    Option<Broadcast>,
))
    requires
        store.wf(),
        old(ports).wf(),
    ensures
        res.0.wf(),
        final(ports).wf(),
        logout_all_step(store, *old(ports), ack, res.0, *final(ports), res.1),
{
    let mut st = store;
    st.reset_stores();
    let event = make_event(SessionEventType::Logout, None, Resource::Auth, ack, None, NotificationTarget::All);
    let b = broadcast(ports, event);
    (st, Some(b))
}

fn on_deleted(
    store: SessionStore, ports: &mut PortRegistry, resource: Resource, rid: String, data: Detail,
    ack: Option<String>,
) -> (res: (SessionStore, Option<Broadcast>))
    requires
        store.wf(),
        old(ports).wf(),
    ensures
        res.0.wf(),
        final(ports).wf(),
        deleted_step(store, *old(ports), resource, rid@, data, ack, res.0, *final(ports), res.1),
{
    let mut st = store;
    match resource {
        Resource::Account => {
            match st.remove_account(&rid) {
                Some(i) => {
                    let sid = st.stores[i].store_id.clone();
                    let event = make_event(
                        SessionEventType::Delete,
                        Some(data),
                        Resource::Account,
                        ack,
                        Some(sid.clone()),
                        NotificationTarget::Store { store_id: sid },
                    );
                    let b = broadcast(ports, event);
                    (st, Some(b))
                },
                None => {
                    let event = make_event(
                        SessionEventType::Delete,
                        Some(data),
                        Resource::Account,
                        ack,
                        None,
                        NotificationTarget::All,
                    );
                    let b = broadcast(ports, event);
                    (st, Some(b))
                },
            }
        },
        _ => {
            let event = make_event(SessionEventType::Delete, None, resource, ack, None, NotificationTarget::All);
            let b = broadcast(ports, event);
            (st, Some(b))
        },
    }
}

fn on_created(
    store: SessionStore, ports: &mut PortRegistry, store_id: String, resource: Resource,
    account: Option<Account>, ack: Option<String>,
) -> (res: (SessionStore, Option<Broadcast>))
    requires
        store.wf(),
        old(ports).wf(),
        resource == Resource::Account ==> account is Some,
    ensures
        res.0.wf(),
        final(ports).wf(),
        created_step(store, *old(ports), store_id@, resource, account, ack, res.0, *final(ports), res.1),
{
    let mut st = store;
    match resource {
        Resource::Account => {
            let acc = account.unwrap();
            let json = acc.to_json();
            let mut data: Detail = Vec::new();
            if st.add_account(&store_id, acc) {
                detail_push(&mut data, DataFieldType::Data, json);
                proof {
                    reveal_with_fuel(detail_model, 2);
                    assert(data@.drop_last() =~= Seq::<(DataFieldType, JsonValue)>::empty());
                    assert(detail_model(data@) =~= seq![(DataFieldType::Data, account_json(account->0))]);
                }
            } else {
                assert(detail_model(data@) =~= Seq::<(DataFieldType, JsonModel)>::empty());
            }
            let event = make_event(
                SessionEventType::Create,
                Some(data),
                Resource::Account,
                ack,
                Some(store_id.clone()),
                NotificationTarget::Store { store_id },
            );
            let b = broadcast(ports, event);
            (st, Some(b))
        },
        _ => {
            let event = make_event(SessionEventType::Create, None, resource, ack, None, NotificationTarget::All);
            let b = broadcast(ports, event);
            (st, Some(b))
        },
    }
}

fn on_edited(
    store: SessionStore, ports: &mut PortRegistry, store_id: String, resource: Resource, rid: String,
    updates: Vec<(DataFieldType, String)>, ack: Option<String>,
) -> (res: (SessionStore, Option<Broadcast>))
    requires
        store.wf(),
        old(ports).wf(),
    ensures
        res.0.wf(),
        final(ports).wf(),
        edited_step(store, *old(ports), store_id@, resource, rid@, updates@, ack, res.0, *final(ports), res.1),
{
    let mut st = store;
    match resource {
        Resource::Account => {
            let mut data: Detail = Vec::new();
            let ghost old_stores = st.stores@;
            match st.edit_account(&rid, &updates) {
                Some(json) => {
                    detail_push(&mut data, DataFieldType::ResourceID, JsonValue::String(rid.clone()));
                    detail_push(&mut data, DataFieldType::Data, json);
                    proof {
                        reveal_with_fuel(detail_model, 3);
                        assert(data@.drop_last().drop_last() =~= Seq::<(DataFieldType, JsonValue)>::empty());
                        let i = first_store_holding(old_stores, rid@)->0;
                        let k = first_account(old_stores[i].accounts@, rid@)->0;
                        assert(detail_model(data@) =~= seq![
                            (DataFieldType::ResourceID, JsonModel::String(rid@)),
                            (DataFieldType::Data, account_json(apply_updates(old_stores[i].accounts@[k], updates@))),
                        ]);
                    }
                },
                None => {
                    assert(detail_model(data@) =~= Seq::<(DataFieldType, JsonModel)>::empty());
                },
            }
            let event = make_event(
                SessionEventType::Update,
                Some(data),
                Resource::Account,
                ack,
                Some(store_id.clone()),
                NotificationTarget::Store { store_id },
            );
            let b = broadcast(ports, event);
            (st, Some(b))
        },
        _ => {
            let event = make_event(
                SessionEventType::Create,
                None,
                resource,
                ack,
                Some(store_id.clone()),
                NotificationTarget::Store { store_id },
            );
            let b = broadcast(ports, event);
            (st, Some(b))
        },
    }
}


fn on_fetched(
    store: SessionStore, ports: &mut PortRegistry, store_id: String, resource: Resource,
    accounts: Vec<Account>, detail: Detail, ack: Option<String>,
) -> (res: (SessionStore, Option<Broadcast>))
    requires
        store.wf(),
        old(ports).wf(),
    ensures
        res.0.wf(),
        final(ports).wf(),
        fetched_step(store, *old(ports), store_id@, resource, accounts, detail, ack, res.0, *final(ports), res.1),
{
    let mut st = store;
    match resource {
        Resource::Account => {
            if st.load_accounts(&store_id, accounts) {
                let event = make_event(
                    SessionEventType::Refreshed,
                    Some(detail),
                    Resource::Account,
                    ack,
                    Some(store_id.clone()),
                    NotificationTarget::Store { store_id },
                );
                let b = broadcast(ports, event);
                (st, Some(b))
            } else {
                (st, None)
            }
        },
        _ => (st, None),
    }
}

fn on_init(store: SessionStore, ports: &mut PortRegistry, ids: Vec<String>, keys: Vec<Key>, ack: Option<String>) -> (res: (
    SessionStore,
    Option<Broadcast>,
))
    requires
        store.wf(),
        old(ports).wf(),
    ensures
        res.0.wf(),
        final(ports).wf(),
        init_step(store, *old(ports), ids@, keys, ack, res.0, *final(ports), res.1),
{
    let mut st = store;
    st.add_missing_stores(&ids);
    let mut data: Detail = Vec::new();
    detail_push(&mut data, DataFieldType::StoreIDList, texts_json(&ids));
    detail_push(&mut data, DataFieldType::Keys, keys_json(&keys));
    proof {
        reveal_with_fuel(detail_model, 3);
        assert(data@.drop_last().drop_last() =~= Seq::<(DataFieldType, JsonValue)>::empty());
        assert(detail_model(data@) =~= init_data(ids@, keys@));
    }
    let payload = copy_detail(&data);
    st.keys = keys;
    st.status = StateStoreStatus::Loaded;
    let event = make_event(SessionEventType::Init(payload), Some(data), Resource::Store, ack, None, NotificationTarget::All);
    let b = broadcast(ports, event);
    (st, Some(b))
}

fn on_request_failed(
    store: SessionStore, ports: &mut PortRegistry, req: PendingRequest, event_type: SessionEventType,
    data: Option<Detail>, resource: Resource, ack: Option<String>,
) -> (res: (SessionStore, Option<Broadcast>))
    requires
        store.wf(),
        old(ports).wf(),
    ensures
        res.0.wf(),
        final(ports).wf(),
        request_failed_step(store, *old(ports), req, event_type, data, resource, ack, res.0, *final(ports), res.1),
{
    let port = take_asking_port(ports, &req.acknowledgement);
    let target = port_or_nobody(port);
    let event = make_event(event_type, data, resource, ack, req.store_id, target);
    let b = broadcast(ports, event);
    (store, Some(b))
}

fn on_store_answered(
    store: SessionStore, ports: &mut PortRegistry, id: String, req_ack: Option<String>, created: bool,
    ack: Option<String>,
) -> (res: (SessionStore, Option<Broadcast>))
    requires
        store.wf(),
        old(ports).wf(),
    ensures
        res.0.wf(),
        final(ports).wf(),
        store_answered_step(store, *old(ports), id@, req_ack, created, ack, res.0, *final(ports), res.1),
{
    let mut st = store;
    let _ = take_asking_port(ports, &req_ack);
    if created {
        st.put_fresh_store(&id);
    } else {
        st.remove_store(&id);
    }
    let mut data: Detail = Vec::new();
    detail_push(&mut data, DataFieldType::StoreID, JsonValue::String(id.clone()));
    proof {
        reveal_with_fuel(detail_model, 2);
        assert(data@.drop_last() =~= Seq::<(DataFieldType, JsonValue)>::empty());
        assert(detail_model(data@) =~= store_data(id@));
    }
    let payload = copy_detail(&data);
    let event_type = if created {
        SessionEventType::StoreCreated(payload, id.clone())
    } else {
        SessionEventType::StoreDeleted(payload, id.clone())
    };
    let event = make_event(event_type, Some(data), Resource::Store, ack, Some(id), NotificationTarget::All);
    let b = broadcast(ports, event);
    (st, Some(b))
}

fn on_store_failed(
    store: SessionStore, ports: &mut PortRegistry, req: PendingRequest, detail: Option<&Detail>,
    created: bool, ack: Option<String>,
) -> (res: (SessionStore, Option<Broadcast>))
    requires
        store.wf(),
        old(ports).wf(),
    ensures
        res.0.wf(),
        final(ports).wf(),
        store_failed_step(
            store, *old(ports), req, match detail { Some(d) => Some(*d), None => None }, created, ack,
            res.0, *final(ports), res.1,
        ),
{
    let port = take_asking_port(ports, &req.acknowledgement);
    let id = match &req.store_id {
        Some(x) => x.clone(),
        None => String::new(),
    };
    let payload = failure_detail(&id, detail);
    let event_type = if created {
        SessionEventType::StoreCreationFailed(payload, id.clone())
    } else {
        SessionEventType::StoreDeletionFailed(payload, id.clone())
    };
    let target = port_or_nobody(port);
    let event = make_event(event_type, None, Resource::Store, ack, Some(id), target);
    let b = broadcast(ports, event);
    (store, Some(b))
}

impl SessionActionWrapper {
    /// Applies the action to the session: returns the new session and the event it
    /// produces, with the ports that the event is sent to (taken before the action's
    /// changes to the ports). A login reads the store, whether it becomes the default and
    /// the store logged in before from the detail, not from the action's fields.
    pub fn apply(self, store: SessionStore, ports: &mut PortRegistry) -> (res: (SessionStore, Option<Broadcast>))
        requires
            store.wf(),
            old(ports).wf(),
            action_ready(self.action),
            detail_ready(self),
        ensures
            res.0.wf(),
            final(ports).wf(),
            session_step(self, store, *old(ports), res.0, *final(ports), res.1),
    {
        let ack = detail_acknowledgement(&self.detail);
        match self.action {
            SessionAction::Login { .. } => {
                let id = detail_string(&self.detail, &DataFieldType::StoreID).unwrap();
                let is_default = detail_bool(&self.detail, &DataFieldType::IsDefault).unwrap();
                let prev = detail_string(&self.detail, &DataFieldType::PrevStoreID);
                on_login(store, ports, id, is_default, prev, ack)
            },
            SessionAction::LoginError(req) => {
                let req_ack = req.acknowledgement.clone();
                on_request_failed(store, ports, req, SessionEventType::LoginError, None, Resource::Auth, req_ack)
            },
            SessionAction::Logout(Some(id), _) => on_logout(store, ports, id, ack),
            SessionAction::Logout(None, _) => on_logout_all(store, ports, ack),
            SessionAction::Init { store_ids, keys } => on_init(store, ports, store_ids, keys, ack),
            SessionAction::InitStarted(a) => {
                let mut st = store;
                st.status = StateStoreStatus::Loading(a);
                (st, None)
            },
            SessionAction::DataFetched { store_id, resource, accounts, detail } =>
                on_fetched(store, ports, store_id, resource, accounts, detail, ack),
            SessionAction::DataCreated { store_id, resource, account } =>
                on_created(store, ports, store_id, resource, account, ack),
            SessionAction::StoreCreated { store_id, acknowledgement } =>
                on_store_answered(store, ports, store_id, acknowledgement, true, ack),
            SessionAction::StoreDeleted { store_id, acknowledgement } =>
                on_store_answered(store, ports, store_id, acknowledgement, false, ack),
            SessionAction::StoreCreationFailed(req, resp) => {
                let detail = match &resp {
                    ResponseEnum::CreateResponse(c) => Some(&c.detail),
                    _ => None,
                };
                on_store_failed(store, ports, req, detail, true, ack)
            },
            SessionAction::StoreDeletionFailed(req, resp) => {
                let detail = match &resp {
                    ResponseEnum::DeleteStoreResponse(c) => Some(&c.detail),
                    _ => None,
                };
                on_store_failed(store, ports, req, detail, false, ack)
            },
            SessionAction::DataEdited { store_id, resource, instance_id, updates } =>
                on_edited(store, ports, store_id, resource, instance_id, updates, ack),
            SessionAction::DataDeleted(resource, rid, data) => on_deleted(store, ports, resource, rid, data, ack),
            SessionAction::DataCreationFailed(resource, data, Some(req)) => {
                match resource {
                    Resource::Account => on_request_failed(
                        store,
                        ports,
                        req,
                        SessionEventType::CreationFailed,
                        Some(data),
                        Resource::Account,
                        ack,
                    ),
                    _ => {
                        let _ = take_asking_port(ports, &req.acknowledgement);
                        (store, None)
                    },
                }
            },
            SessionAction::DataCreationFailed(_, _, None) => (store, None),
            SessionAction::LogoutError => (store, None),
            SessionAction::DataLoading(_, _) => (store, None),
            SessionAction::DataDeletionFailed(_, _) => (store, None),
            SessionAction::DataEditFailed(_, _, _) => (store, None),
        }
    }
}


/// In a session with distinct store ids, the store with an id is the one at its position.
pub proof fn lemma_store_index_unique(s: Seq<StoreData>, i: int)
    requires
        store_ids_distinct(s),
        0 <= i < s.len(),
    ensures
        has_store(s, s[i].store_id@),
        store_index(s, s[i].store_id@) == i,
{
    let id = s[i].store_id@;
    assert(s[i].store_id@ == id);
    let k = store_index(s, id);
    if k != i {
        if k < i {
            assert(s[k].store_id@ != s[i].store_id@);
        } else {
            assert(s[i].store_id@ != s[k].store_id@);
        }
    }
}

/// After a store is unlocked, it is known and unlocked.
pub proof fn lemma_login_unlocks(
    s: SessionStore, p: PortRegistry, id: Seq<char>, is_default: bool, prev: Option<Seq<char>>,
    ack: Option<String>, t: SessionStore, q: PortRegistry, out: Option<Broadcast>,
)
    requires
        s.wf(),
        t.wf(),
        login_step(s, p, id, is_default, prev, ack, t, q, out),
    ensures
        has_store(t.stores@, id),
        t.stores@[store_index(t.stores@, id)].verified,
{
    if has_store(s.stores@, id) {
        let i = store_index(s.stores@, id);
        assert(t.stores@[i].store_id@ == id);
        lemma_store_index_unique(t.stores@, i);
    } else {
        let i = t.stores@.len() - 1;
        assert(t.stores@[i] == t.stores@.last());
        lemma_store_index_unique(t.stores@, i);
    }
}

/// Unlocking a store and then locking it leaves the store known and locked, sends a
/// logout event to the ports that listened to it, and leaves no port listening to it.
pub proof fn lemma_login_then_logout(
    s: SessionStore, p: PortRegistry, id: Seq<char>, is_default: bool, prev: Option<Seq<char>>,
    ack1: Option<String>, t: SessionStore, q: PortRegistry, out1: Option<Broadcast>,
    ack2: Option<String>, u: SessionStore, r: PortRegistry, out2: Option<Broadcast>,
)
    requires
        s.wf(),
        t.wf(),
        u.wf(),
        login_step(s, p, id, is_default, prev, ack1, t, q, out1),
        logout_step(t, q, id, ack2, u, r, out2),
    ensures
        has_store(u.stores@, id),
        !u.stores@[store_index(u.stores@, id)].verified,
        u.stores@[store_index(u.stores@, id)].storage_status == StorageStatus::Uninitialized,
        out2 is Some,
        out2->0.event.event_type == SessionEventType::Logout,
        forall|port: Seq<char>| !r.listening().contains((id, port)),
{
    lemma_login_unlocks(s, p, id, is_default, prev, ack1, t, q, out1);
    let i = store_index(t.stores@, id);
    assert(u.stores@[i].store_id@ == id);
    lemma_store_index_unique(u.stores@, i);
}

/// After a store is deleted, no store has its id.
pub proof fn lemma_deleted_store_gone(
    s: SessionStore, p: PortRegistry, id: Seq<char>, req_ack: Option<String>, ack: Option<String>,
    t: SessionStore, q: PortRegistry, out: Option<Broadcast>,
)
    requires
        s.wf(),
        store_answered_step(s, p, id, req_ack, false, ack, t, q, out),
    ensures
        !has_store(t.stores@, id),
{
    if has_store(s.stores@, id) {
        let i = store_index(s.stores@, id);
        if has_store(t.stores@, id) {
            let k = choose|k: int| 0 <= k < t.stores@.len() && #[trigger] t.stores@[k].store_id@ == id;
            if k < i {
                assert(t.stores@[k] == s.stores@[k]);
                assert(s.stores@[k].store_id@ != s.stores@[i].store_id@);
            } else {
                assert(t.stores@[k] == s.stores@[k + 1]);
                assert(s.stores@[i].store_id@ != s.stores@[k + 1].store_id@);
            }
        }
    }
}

/// After a store is created, exactly one store has its id, and it is fresh and locked.
pub proof fn lemma_created_store_fresh(
    s: SessionStore, p: PortRegistry, id: Seq<char>, req_ack: Option<String>, ack: Option<String>,
    t: SessionStore, q: PortRegistry, out: Option<Broadcast>,
)
    requires
        s.wf(),
        t.wf(),
        store_answered_step(s, p, id, req_ack, true, ack, t, q, out),
    ensures
        has_store(t.stores@, id),
        is_fresh_store(t.stores@[store_index(t.stores@, id)], id, false),
{
    if has_store(s.stores@, id) {
        lemma_store_index_unique(t.stores@, store_index(s.stores@, id));
    } else {
        let i = t.stores@.len() - 1;
        assert(t.stores@[i] == t.stores@.last());
        lemma_store_index_unique(t.stores@, i);
    }
}

/// An id is among the new ids or already known exactly when it is known or listed.
pub proof fn lemma_new_ids(known: Seq<Seq<char>>, ids: Seq<Seq<char>>)
    ensures
        forall|x: Seq<char>| ids.contains(x) ==> known.contains(x) || #[trigger] new_ids(known, ids).contains(x),
    decreases ids.len(),
{
    if ids.len() > 0 {
        lemma_new_ids(known, ids.drop_last());
        let rest = new_ids(known, ids.drop_last());
        assert forall|x: Seq<char>| ids.contains(x) implies known.contains(x) || #[trigger] new_ids(known, ids).contains(x) by {
            let j = choose|j: int| 0 <= j < ids.len() && ids[j] == x;
            if j < ids.len() - 1 {
                assert(ids.drop_last()[j] == x);
                if rest.contains(x) {
                    let m = choose|m: int| 0 <= m < rest.len() && rest[m] == x;
                    if !(known.contains(ids.last()) || rest.contains(ids.last())) {
                        assert(rest.push(ids.last())[m] == x);
                    }
                }
            } else {
                if !(known.contains(ids.last()) || rest.contains(ids.last())) {
                    assert(rest.push(ids.last())[rest.len() as int] == x);
                }
            }
        }
    }
}

/// After the native host's report, every reported store id has a store, and the stores
/// known before are unchanged.
pub proof fn lemma_init_knows_all(
    s: SessionStore, p: PortRegistry, ids: Seq<String>, keys: Vec<Key>, ack: Option<String>,
    t: SessionStore, q: PortRegistry, out: Option<Broadcast>,
)
    requires
        init_step(s, p, ids, keys, ack, t, q, out),
    ensures
        forall|i: int| 0 <= i < ids.len() ==> has_store(t.stores@, #[trigger] ids[i]@),
        forall|i: int| 0 <= i < s.stores@.len() ==> #[trigger] t.stores@[i] == s.stores@[i],
{
    let known = store_ids(s.stores@);
    let added = new_ids(known, text_seq(ids));
    lemma_store_ids(s.stores@);
    lemma_new_ids(known, text_seq(ids));
    lemma_text_seq_index(ids);
    assert forall|i: int| 0 <= i < s.stores@.len() implies #[trigger] t.stores@[i] == s.stores@[i] by {
        assert(t.stores@.subrange(0, s.stores@.len() as int)[i] == t.stores@[i]);
    }
    assert forall|i: int| 0 <= i < ids.len() implies has_store(t.stores@, #[trigger] ids[i]@) by {
        let x = ids[i]@;
        assert(text_seq(ids)[i] == x);
        assert(text_seq(ids).contains(x));
        if known.contains(x) {
            assert(has_store(s.stores@, x));
            let k = choose|k: int| 0 <= k < s.stores@.len() && #[trigger] s.stores@[k].store_id@ == x;
            assert(t.stores@.subrange(0, s.stores@.len() as int)[k] == t.stores@[k]);
            assert(t.stores@[k].store_id@ == x);
        } else {
            assert(added.contains(x));
            let m = choose|m: int| 0 <= m < added.len() && added[m] == x;
            assert(is_fresh_store(t.stores@[s.stores@.len() + m], added[m], false));
            assert(t.stores@[s.stores@.len() + m].store_id@ == x);
        }
    }
}

/// The texts of a sequence of strings, position by position.
pub proof fn lemma_text_seq_index(v: Seq<String>)
    ensures
        text_seq(v).len() == v.len(),
        forall|i: int| 0 <= i < v.len() ==> #[trigger] text_seq(v)[i] == v[i]@,
    decreases v.len(),
{
    if v.len() > 0 {
        lemma_text_seq_index(v.drop_last());
    }
}


/// The ids of the stores, as strings, in order.
pub open spec fn store_id_strings(s: Seq<StoreData>) -> Seq<String>
    decreases s.len(),
{
    if s.len() == 0 {
        Seq::empty()
    } else {
        store_id_strings(s.drop_last()).push(s.last().store_id)
    }
}

/// The ids of the stores, in order.
pub fn store_id_list(stores: &Vec<StoreData>) -> (res: Vec<String>)
    ensures
        res@ == store_id_strings(stores@),
{
    let mut res: Vec<String> = Vec::new();
    let mut i: usize = 0;
    while i < stores.len()
        invariant
            i <= stores@.len(),
            res@ == store_id_strings(stores@.take(i as int)),
        decreases stores@.len() - i,
    {
        res.push(stores[i].store_id.clone());
        assert(stores@.take(i + 1).drop_last() =~= stores@.take(i as int));
        i = i + 1;
    }
    assert(stores@.take(stores@.len() as int) =~= stores@);
    res
}

/// The update at position `j` is the last update of field `f`.
pub open spec fn last_update_of(us: Seq<(DataFieldType, String)>, f: DataFieldType, j: int) -> bool {
    &&& 0 <= j < us.len()
    &&& us[j].0 == f
    &&& forall|l: int| j < l < us.len() ==> us[l].0 != f
}

/// No update is of field `f`.
pub open spec fn no_update_of(us: Seq<(DataFieldType, String)>, f: DataFieldType) -> bool {
    forall|l: int| 0 <= l < us.len() ==> us[l].0 != f
}

/// Editing an account sets each edited field to the text of its last update: the
/// username to that text, the password, domain and note to that text as present; a field
/// with no update keeps its value, and the id, path, times and extra fields never change.
pub proof fn lemma_updates_set_fields(a: Account, us: Seq<(DataFieldType, String)>)
    ensures
        apply_updates(a, us).id == a.id,
        apply_updates(a, us).path == a.path,
        apply_updates(a, us).created_at == a.created_at,
        apply_updates(a, us).updated_at == a.updated_at,
        apply_updates(a, us).custom_fields == a.custom_fields,
        no_update_of(us, DataFieldType::Username) ==> apply_updates(a, us).username == a.username,
        no_update_of(us, DataFieldType::Password) ==> apply_updates(a, us).password == a.password,
        no_update_of(us, DataFieldType::Domain) ==> apply_updates(a, us).domain == a.domain,
        no_update_of(us, DataFieldType::Note) ==> apply_updates(a, us).note == a.note,
        forall|j: int| last_update_of(us, DataFieldType::Username, j) ==> apply_updates(a, us).username == us[j].1,
        forall|j: int| last_update_of(us, DataFieldType::Password, j) ==> apply_updates(a, us).password == Some(us[j].1),
        forall|j: int| last_update_of(us, DataFieldType::Domain, j) ==> apply_updates(a, us).domain == Some(us[j].1),
        forall|j: int| last_update_of(us, DataFieldType::Note, j) ==> apply_updates(a, us).note == Some(us[j].1),
    decreases us.len(),
{
    if us.len() > 0 {
        let up = us.drop_last();
        let n = us.len() - 1;
        lemma_updates_set_fields(a, up);
        assert forall|l: int| 0 <= l < n implies #[trigger] up[l] == us[l] by {}
        assert forall|f: DataFieldType, j: int| #[trigger] last_update_of(us, f, j) && j < n implies last_update_of(up, f, j) by {
            assert forall|l: int| j < l < up.len() implies up[l].0 != f by {
                assert(up[l] == us[l]);
            }
        }
        assert forall|f: DataFieldType| #[trigger] no_update_of(us, f) implies no_update_of(up, f) by {
            assert forall|l: int| 0 <= l < up.len() implies up[l].0 != f by {
                assert(up[l] == us[l]);
            }
        }
        assert forall|f: DataFieldType, j: int| #[trigger] last_update_of(us, f, j) && us[n].0 != f implies j < n by {}
        assert forall|f: DataFieldType| us[n].0 == f implies #[trigger] last_update_of(us, f, n) by {}
    }
}

} // verus!
