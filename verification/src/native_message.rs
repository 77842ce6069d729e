//! How the service worker turns a response of the native host into a change of the
//! session: which session action the response calls for, given the request that it
//! answers.
use vstd::prelude::*;
use crate::json::{JsonModel, JsonValue};
use crate::ports::{PendingRequest, RequestKind};
use crate::request::{detail_lookup, detail_position, DataFieldType, Detail};
use crate::response::{ErrorCode, ErrorResponse, ResponseEnum, ResponseEnumTrait, Status, UpdateLog};
use crate::session::{SessionAction, SessionActionWrapper};
use crate::types::{key_of_detail, opt_text_json, opt_text_to_json, Account, Key, Resource};
use crate::json::{json_text, to_json_text};

verus! {

/// What the service worker parsed out of a response's detail: the created account, the
/// fetched accounts, and the detail maps of the reported keys.
pub struct ResponsePayload {
    pub account: Option<Account>,
    pub accounts: Vec<Account>,
    pub key_details: Vec<Detail>,
}

/// What a response calls for: a session action, and for a response of an unsupported
/// kind, the error to answer with in its place.
pub struct NativeOutcome {
    pub action: Option<SessionActionWrapper>,
    pub unsupported: Option<ErrorResponse>,
}

/// The texts of a sequence of JSON values, if all are strings.
pub open spec fn strings_of(s: Seq<JsonValue>) -> Option<Seq<String>>
    decreases s.len(),
{
    if s.len() == 0 {
        Some(Seq::empty())
    } else {
        match (strings_of(s.drop_last()), s.last()) {
            (Some(r), JsonValue::String(t)) => Some(r.push(t)),
            _ => None,
        }
    }
}

/// The store ids an init response lists: none when the list is missing or not an array,
/// and nothing when one of them is not a string.
pub open spec fn listed_store_ids(d: Seq<(DataFieldType, JsonValue)>) -> Option<Seq<String>> {
    match detail_lookup(d, DataFieldType::StoreIDList) {
        Some(JsonValue::Array(items)) => strings_of(items@),
        _ => Some(Seq::empty()),
    }
}

/// The keys the detail maps describe, if each describes one.
pub open spec fn keys_of(s: Seq<Detail>) -> Option<Seq<Key>>
    decreases s.len(),
{
    if s.len() == 0 {
        Some(Seq::empty())
    } else {
        match (keys_of(s.drop_last()), key_of_detail(s.last()@)) {
            (Some(r), Some(k)) => Some(r.push(k)),
            _ => None,
        }
    }
}

/// The text each logged update sets its field to: the JSON text of the new value.
pub open spec fn update_texts(logs: Seq<UpdateLog>) -> Seq<(DataFieldType, Seq<char>)>
    decreases logs.len(),
{
    if logs.len() == 0 {
        Seq::empty()
    } else {
        update_texts(logs.drop_last()).push((logs.last().field, json_text(logs.last().new)))
    }
}

/// The texts of the updates.
pub open spec fn update_models(u: Seq<(DataFieldType, String)>) -> Seq<(DataFieldType, Seq<char>)>
    decreases u.len(),
{
    if u.len() == 0 {
        Seq::empty()
    } else {
        update_models(u.drop_last()).push((u.last().0, u.last().1@))
    }
}

/// The context of a login answer: the request's store, previous store, default flag and
/// acknowledgement.
pub open spec fn login_context(r: PendingRequest) -> Seq<(DataFieldType, JsonModel)> {
    seq![
        (DataFieldType::StoreID, opt_text_json(r.store_id)),
        (DataFieldType::PrevStoreID, opt_text_json(r.prev_store_id)),
        (DataFieldType::IsDefault, JsonModel::Bool(r.is_default)),
        (DataFieldType::Acknowledgement, opt_text_json(r.acknowledgement)),
    ]
}

/// What a response can be handled with: a login answer needs its request, and a login
/// success one with a store; a failed store creation or deletion needs its request; a
/// created account comes parsed; a successful init response lists store ids as strings
/// and comes with its keys parsed.
pub open spec fn handleable(response: ResponseEnum, request: Option<PendingRequest>, payload: ResponsePayload) -> bool {
    match response {
        ResponseEnum::LoginResponse(l) => request is Some && (request->0.kind == RequestKind::Login && l.status
            == Status::Success ==> request->0.store_id is Some),
        ResponseEnum::CreateResponse(c) => c.status == Status::Success && c.resource == Resource::Account ==> payload.account is Some,
        ResponseEnum::CreateStoreResponse(c) => c.status != Status::Success ==> request is Some,
        ResponseEnum::DeleteStoreResponse(c) => c.status != Status::Success ==> request is Some,
        ResponseEnum::InitResponse(i) => i.status == Status::Success ==> listed_store_ids(i.detail@) is Some
            && keys_of(payload.key_details@) is Some,
        _ => true,
    }
}

/// The action is applied with the given detail.
pub open spec fn acts(out: NativeOutcome, detail: Option<Detail>) -> bool {
    &&& out.action is Some
    &&& out.action->0.detail == detail
    &&& out.unsupported is None
}

/// Nothing is applied and the response is passed on.
pub open spec fn passes(out: NativeOutcome) -> bool {
    out.action is None && out.unsupported is None
}

/// What handling a response calls for, for each kind of response.
pub open spec fn native_step(
    response: ResponseEnum, request: Option<PendingRequest>, ctx: Option<Detail>, payload: ResponsePayload,
    res: Result<NativeOutcome, String>,
) -> bool {
    match response {
        ResponseEnum::LoginResponse(l) => {
            let req = request->0;
            if req.kind != RequestKind::Login {
                res matches Err(e) && e@ == "response is for login request but request type is not login"@
            } else {
                res matches Ok(out) && match l.status {
                    Status::Success => {
                        &&& out.action matches Some(w) && w.detail matches Some(d) && crate::request::detail_model(d@) == login_context(req)
                        &&& out.action->0.action matches SessionAction::Login { store_id, is_default, prev_store_id }
                            && Some(store_id) == req.store_id && is_default == req.is_default && prev_store_id == req.prev_store_id
                        &&& crate::session::opt_seq(crate::session::detail_text(out.action->0.detail, DataFieldType::StoreID))
                            == crate::session::opt_seq(req.store_id)
                        &&& crate::session::opt_seq(crate::session::detail_text(out.action->0.detail, DataFieldType::PrevStoreID))
                            == crate::session::opt_seq(req.prev_store_id)
                        &&& crate::session::detail_flag(out.action->0.detail, DataFieldType::IsDefault) == Some(req.is_default)
                        &&& out.unsupported is None
                    },
                    Status::Failure => {
                        &&& out.action matches Some(w) && w.detail matches Some(d) && crate::request::detail_model(d@) == login_context(req)
                        &&& out.action->0.action == SessionAction::LoginError(req)
                        &&& out.unsupported is None
                    },
                    Status::Error => passes(out),
                }
            }
        },
        ResponseEnum::LogoutResponse(l) => res matches Ok(out) && match l.status {
            Status::Success => acts(out, None) && out.action->0.action == SessionAction::Logout(l.store_id, l.acknowledgement),
            Status::Failure => acts(out, None) && out.action->0.action == SessionAction::LogoutError,
            Status::Error => passes(out),
        },
        ResponseEnum::GetResponse(_) => res matches Ok(out) && passes(out),
        ResponseEnum::SearchResponse(_) => res matches Ok(out) && passes(out),
        ResponseEnum::DeleteResponse(d) => res matches Ok(out) && if d.status == Status::Success {
            acts(out, ctx) && out.action->0.action == SessionAction::DataDeleted(Resource::Account, d.deleted_resource_id, d.detail)
        } else {
            passes(out)
        },
        ResponseEnum::CreateResponse(c) => res matches Ok(out) && acts(out, ctx) && if c.status == Status::Success {
            out.action->0.action == (SessionAction::DataCreated { store_id: c.store_id, resource: c.resource, account: payload.account })
        } else {
            out.action->0.action == SessionAction::DataCreationFailed(c.resource, c.detail, request)
        },
        ResponseEnum::CreateStoreResponse(c) => res matches Ok(out) && acts(out, ctx) && if c.status == Status::Success {
            out.action->0.action == (SessionAction::StoreCreated { store_id: c.store_id, acknowledgement: c.acknowledgement })
        } else {
            out.action->0.action matches SessionAction::StoreCreationFailed(r, resp) && r == request->0
                && resp == ResponseEnum::CreateStoreResponse(c)
        },
        ResponseEnum::DeleteStoreResponse(c) => res matches Ok(out) && out.unsupported is None && if c.status == Status::Success {
            &&& out.action matches Some(w) && w.detail matches Some(d) && {
                &&& detail_lookup(d@, DataFieldType::StoreID) matches Some(v) && v@ == match detail_lookup(c.detail@, DataFieldType::StoreID) {
                    Some(x) => x@,
                    None => JsonModel::Null,
                }
                &&& forall|k: DataFieldType| k != DataFieldType::StoreID ==> #[trigger] detail_lookup(d@, k) == match ctx {
                    Some(x) => detail_lookup(x@, k),
                    None => None,
                }
            }
            &&& out.action->0.action == (SessionAction::StoreDeleted { store_id: c.store_id, acknowledgement: c.acknowledgement })
        } else {
            &&& out.action matches Some(w) && w.detail == ctx
            &&& out.action->0.action matches SessionAction::StoreDeletionFailed(r, resp) && r == request->0
                && resp == ResponseEnum::DeleteStoreResponse(c)
        },
        ResponseEnum::EditResponse(e) => res matches Ok(out) && acts(out, ctx) && if e.status == Status::Success {
            out.action->0.action matches SessionAction::DataEdited { store_id, resource, instance_id, updates }
                && store_id == e.store_id && resource == e.resource && instance_id == e.instance_id
                && update_models(updates@) == update_texts(e.update_logs@)
        } else {
            out.action->0.action matches SessionAction::DataEditFailed(r, d, q) && r == e.resource && d@.len() == 0 && q == request
        },
        ResponseEnum::FetchResponse(f) => if f.status == Status::Success {
            res matches Ok(out) && acts(out, ctx) && out.action->0.action == (SessionAction::DataFetched {
                store_id: f.store_id,
                resource: f.resource,
                accounts: payload.accounts,
                detail: f.detail,
            })
        } else {
            res matches Err(e) && e@ == "error happened while fetching data"@
        },
        ResponseEnum::InitResponse(i) => if i.status == Status::Success {
            res matches Ok(out) && {
                &&& acts(out, ctx)
                &&& out.action->0.action matches SessionAction::Init { store_ids, keys }
                    && Some(store_ids@) == listed_store_ids(i.detail@) && Some(keys@) == keys_of(payload.key_details@)
            }
        } else {
            res matches Err(e) && e@ == "error happened while initializing"@
        },
        _ => res matches Ok(out) && {
            &&& out.action is None
            &&& out.unsupported matches Some(e) && {
                &&& e.acknowledgement == response.spec_acknowledgement()
                &&& e.code == Some(ErrorCode::NotSupported)
                &&& e.message matches Some(m) && m@ == "resource not supported"@
            }
        },
    }
}


/// The context of a login answer.
fn login_ctx(r: &PendingRequest) -> (res: Detail)
    ensures
        crate::request::detail_model(res@) == login_context(*r),
        crate::session::detail_ack(Some(res)) == r.acknowledgement,
        crate::session::opt_seq(crate::session::detail_text(Some(res), DataFieldType::StoreID))
            == crate::session::opt_seq(r.store_id),
        crate::session::opt_seq(crate::session::detail_text(Some(res), DataFieldType::PrevStoreID))
            == crate::session::opt_seq(r.prev_store_id),
        crate::session::detail_flag(Some(res), DataFieldType::IsDefault) == Some(r.is_default),
{
    let mut d: Detail = Vec::new();
    crate::session::detail_push(&mut d, DataFieldType::StoreID, opt_text_to_json(&r.store_id));
    crate::session::detail_push(&mut d, DataFieldType::PrevStoreID, opt_text_to_json(&r.prev_store_id));
    crate::session::detail_push(&mut d, DataFieldType::IsDefault, JsonValue::Bool(r.is_default));
    let ack = match &r.acknowledgement {
        Some(a) => JsonValue::String(a.clone()),
        None => JsonValue::Null,
    };
    crate::session::detail_push(&mut d, DataFieldType::Acknowledgement, ack);
    proof {
        reveal_with_fuel(crate::request::detail_model, 5);
        assert(d@.drop_last().drop_last().drop_last().drop_last() =~= Seq::<(DataFieldType, JsonValue)>::empty());
        assert(crate::request::detail_model(d@) =~= login_context(*r));
        reveal_with_fuel(detail_lookup, 5);
        assert(d@.drop_first().drop_first().drop_first()[0].0 == DataFieldType::Acknowledgement);
    }
    d
}

/// The texts of a sequence of JSON values, if all are strings.
fn strings_from(items: &Vec<JsonValue>) -> (res: Option<Vec<String>>)
    ensures
        match res {
            Some(v) => strings_of(items@) == Some(v@),
            None => strings_of(items@) is None,
        },
{
    let mut out: Vec<String> = Vec::new();
    let mut i: usize = 0;
    while i < items.len()
        invariant
            i <= items@.len(),
            strings_of(items@.take(i as int)) == Some(out@),
        decreases items@.len() - i,
    {
        assert(items@.take(i + 1).drop_last() =~= items@.take(i as int));
        match &items[i] {
            JsonValue::String(t) => {
                out.push(t.clone());
            },
            _ => {
                proof {
                    lemma_strings_of_prefix(items@, i as int + 1);
                }
                return None;
            },
        }
        i = i + 1;
    }
    assert(items@.take(items@.len() as int) =~= items@);
    Some(out)
}

/// A sequence whose prefix has a non-string has no texts.
proof fn lemma_strings_of_prefix(s: Seq<JsonValue>, n: int)
    requires
        0 <= n <= s.len(),
        strings_of(s.take(n)) is None,
    ensures
        strings_of(s) is None,
    decreases s.len() - n,
{
    if n < s.len() {
        assert(s.take(n + 1).drop_last() =~= s.take(n));
        lemma_strings_of_prefix(s, n + 1);
    } else {
        assert(s.take(n) =~= s);
    }
}

/// The store ids an init response lists.
fn listed_ids(d: &Detail) -> (res: Option<Vec<String>>)
    ensures
        match res {
            Some(v) => listed_store_ids(d@) == Some(v@),
            None => listed_store_ids(d@) is None,
        },
{
    match detail_position(d, &DataFieldType::StoreIDList) {
        Some(i) => match &d[i].1 {
            JsonValue::Array(items) => strings_from(items),
            _ => Some(Vec::new()),
        },
        None => Some(Vec::new()),
    }
}

/// The keys the detail maps describe, if each describes one.
fn keys_from(ds: &Vec<Detail>) -> (res: Option<Vec<Key>>)
    ensures
        match res {
            Some(v) => keys_of(ds@) == Some(v@),
            None => keys_of(ds@) is None,
        },
{
    let mut out: Vec<Key> = Vec::new();
    let mut i: usize = 0;
    while i < ds.len()
        invariant
            i <= ds@.len(),
            keys_of(ds@.take(i as int)) == Some(out@),
        decreases ds@.len() - i,
    {
        assert(ds@.take(i + 1).drop_last() =~= ds@.take(i as int));
        match Key::from_detail(&ds[i]) {
            Some(k) => {
                out.push(k);
            },
            None => {
                proof {
                    lemma_keys_of_prefix(ds@, i as int + 1);
                }
                return None;
            },
        }
        i = i + 1;
    }
    assert(ds@.take(ds@.len() as int) =~= ds@);
    Some(out)
}

/// A sequence whose prefix has a map that describes no key describes no keys.
proof fn lemma_keys_of_prefix(s: Seq<Detail>, n: int)
    requires
        0 <= n <= s.len(),
        keys_of(s.take(n)) is None,
    ensures
        keys_of(s) is None,
    decreases s.len() - n,
{
    if n < s.len() {
        assert(s.take(n + 1).drop_last() =~= s.take(n));
        lemma_keys_of_prefix(s, n + 1);
    } else {
        assert(s.take(n) =~= s);
    }
}

/// The text each logged update sets its field to.
fn updates_from(logs: &Vec<UpdateLog>) -> (res: Vec<(DataFieldType, String)>)
    ensures
        update_models(res@) == update_texts(logs@),
{
    let mut out: Vec<(DataFieldType, String)> = Vec::new();
    let mut i: usize = 0;
    while i < logs.len()
        invariant
            i <= logs@.len(),
            update_models(out@) == update_texts(logs@.take(i as int)),
        decreases logs@.len() - i,
    {
        let ghost prev = out@;
        out.push((logs[i].field.copy(), to_json_text(&logs[i].new)));
        assert(out@.drop_last() =~= prev);
        assert(logs@.take(i + 1).drop_last() =~= logs@.take(i as int));
        i = i + 1;
    }
    assert(logs@.take(logs@.len() as int) =~= logs@);
    out
}

/// Looking a key up after the first entry with it is replaced finds the new value;
/// other keys are found as before.
proof fn lemma_lookup_update(d: Seq<(DataFieldType, JsonValue)>, i: int, k: DataFieldType, v: JsonValue)
    requires
        0 <= i < d.len(),
        d[i].0 == k,
        forall|j: int| 0 <= j < i ==> d[j].0 != k,
    ensures
        detail_lookup(d.update(i, (k, v)), k) == Some(v),
        forall|k2: DataFieldType| k2 != k ==> #[trigger] detail_lookup(d.update(i, (k, v)), k2) == detail_lookup(d, k2),
    decreases i,
{
    let e = d.update(i, (k, v));
    if i == 0 {
        assert(e.drop_first() =~= d.drop_first());
        assert forall|k2: DataFieldType| k2 != k implies #[trigger] detail_lookup(e, k2) == detail_lookup(d, k2) by {
            assert(e[0].0 == k);
            assert(d[0].0 == k);
        }
    } else {
        assert(e.drop_first() =~= d.drop_first().update(i - 1, (k, v)));
        lemma_lookup_update(d.drop_first(), i - 1, k, v);
        assert(e[0] == d[0]);
        assert forall|k2: DataFieldType| k2 != k implies #[trigger] detail_lookup(e, k2) == detail_lookup(d, k2) by {
            if d[0].0 != k2 {
                assert(detail_lookup(e.drop_first(), k2) == detail_lookup(d.drop_first(), k2));
            }
        }
    }
}

/// Looking a key up after an entry with a new key is appended finds its value; other
/// keys are found as before.
proof fn lemma_lookup_push(d: Seq<(DataFieldType, JsonValue)>, k: DataFieldType, v: JsonValue)
    requires
        detail_lookup(d, k) is None,
    ensures
        detail_lookup(d.push((k, v)), k) == Some(v),
        forall|k2: DataFieldType| k2 != k ==> #[trigger] detail_lookup(d.push((k, v)), k2) == detail_lookup(d, k2),
    decreases d.len(),
{
    let e = d.push((k, v));
    if d.len() == 0 {
        assert(e.drop_first() =~= Seq::<(DataFieldType, JsonValue)>::empty());
        assert(e[0] == (k, v));
        assert forall|k2: DataFieldType| k2 != k implies #[trigger] detail_lookup(e, k2) == detail_lookup(d, k2) by {
            assert(detail_lookup(e.drop_first(), k2) is None);
        }
    } else {
        assert(e.drop_first() =~= d.drop_first().push((k, v)));
        assert(e[0] == d[0]);
        lemma_lookup_push(d.drop_first(), k, v);
        assert forall|k2: DataFieldType| k2 != k implies #[trigger] detail_lookup(e, k2) == detail_lookup(d, k2) by {
            if d[0].0 != k2 {
                assert(detail_lookup(e.drop_first(), k2) == detail_lookup(d.drop_first(), k2));
            }
        }
    }
}

/// Sets the value of a key: the first entry with it is replaced, or the entry appended.
pub fn detail_insert(d: &mut Detail, k: DataFieldType, v: JsonValue)
    ensures
        detail_lookup(final(d)@, k) == Some(v),
        forall|k2: DataFieldType| k2 != k ==> #[trigger] detail_lookup(final(d)@, k2) == detail_lookup(old(d)@, k2),
{
    match detail_position(d, &k) {
        Some(i) => {
            proof {
                lemma_lookup_update(d@, i as int, k, v);
            }
            let _ = d.remove(i);
            d.insert(i, (k, v));
            assert(d@ =~= old(d)@.update(i as int, (k, v)));
        },
        None => {
            proof {
                lemma_lookup_push(d@, k, v);
            }
            d.push((k, v));
        },
    }
}


fn act(action: SessionAction, detail: Option<Detail>) -> (res: NativeOutcome)
    ensures
        res.action == Some(SessionActionWrapper { detail, action }),
        res.unsupported is None,
{
    NativeOutcome { action: Some(SessionActionWrapper { detail, action }), unsupported: None }
}

fn pass() -> (res: NativeOutcome)
    ensures
        passes(res),
{
    NativeOutcome { action: None, unsupported: None }
}

/// Decides what a response of the native host calls for, given the request that it
/// answers (found by the response's acknowledgement), the context to apply the action
/// with, and what was parsed out of the response's detail.
pub fn process_native_message(
    response: ResponseEnum, request: Option<PendingRequest>, ctx: Option<Detail>, payload: ResponsePayload,
) -> (res: Result<NativeOutcome, String>)
    requires
        handleable(response, request, payload),
    ensures
        native_step(response, request, ctx, payload, res),
{
    let ghost resp0 = response;
    let ack = response.get_acknowledgement();
    match response {
        ResponseEnum::LoginResponse(l) => {
            let req = request.unwrap();
            if req.kind != RequestKind::Login {
                return Err("response is for login request but request type is not login".to_string());
            }
            let c = login_ctx(&req);
            match l.status {
                Status::Success => {
                    let store_id = req.store_id.clone().unwrap();
                    Ok(act(
                        SessionAction::Login {
                            store_id,
                            is_default: req.is_default,
                            prev_store_id: req.prev_store_id.clone(),
                        },
                        Some(c),
                    ))
                },
                Status::Failure => Ok(act(SessionAction::LoginError(req), Some(c))),
                Status::Error => Ok(pass()),
            }
        },
        ResponseEnum::LogoutResponse(l) => match l.status {
            Status::Success => Ok(act(SessionAction::Logout(l.store_id, l.acknowledgement), None)),
            Status::Failure => Ok(act(SessionAction::LogoutError, None)),
            Status::Error => Ok(pass()),
        },
        ResponseEnum::GetResponse(_) => Ok(pass()),
        ResponseEnum::SearchResponse(_) => Ok(pass()),
        ResponseEnum::DeleteResponse(d) => match d.status {
            Status::Success => Ok(act(SessionAction::DataDeleted(Resource::Account, d.deleted_resource_id, d.detail), ctx)),
            _ => Ok(pass()),
        },
        ResponseEnum::CreateResponse(c) => match c.status {
            Status::Success => Ok(act(
                SessionAction::DataCreated { store_id: c.store_id, resource: c.resource, account: payload.account },
                ctx,
            )),
            _ => Ok(act(SessionAction::DataCreationFailed(c.resource, c.detail, request), ctx)),
        },
        ResponseEnum::CreateStoreResponse(c) => match c.status {
            Status::Success => Ok(act(
                SessionAction::StoreCreated { store_id: c.store_id, acknowledgement: c.acknowledgement },
                ctx,
            )),
            _ => Ok(act(SessionAction::StoreCreationFailed(request.unwrap(), ResponseEnum::CreateStoreResponse(c)), ctx)),
        },
        ResponseEnum::DeleteStoreResponse(c) => match c.status {
            Status::Success => {
                let mut detail: Detail = match ctx {
                    Some(x) => x,
                    None => Vec::new(),
                };
                let v = match detail_position(&c.detail, &DataFieldType::StoreID) {
                    Some(i) => c.detail[i].1.copy(),
                    None => JsonValue::Null,
                };
                detail_insert(&mut detail, DataFieldType::StoreID, v);
                Ok(act(
                    SessionAction::StoreDeleted { store_id: c.store_id, acknowledgement: c.acknowledgement },
                    Some(detail),
                ))
            },
            _ => Ok(act(SessionAction::StoreDeletionFailed(request.unwrap(), ResponseEnum::DeleteStoreResponse(c)), ctx)),
        },
        ResponseEnum::EditResponse(e) => match e.status {
            Status::Success => {
                let updates = updates_from(&e.update_logs);
                Ok(act(
                    SessionAction::DataEdited {
                        store_id: e.store_id,
                        resource: e.resource,
                        instance_id: e.instance_id,
                        updates,
                    },
                    ctx,
                ))
            },
            _ => Ok(act(SessionAction::DataEditFailed(e.resource, Vec::new(), request), ctx)),
        },
        ResponseEnum::FetchResponse(f) => match f.status {
            Status::Success => Ok(act(
                SessionAction::DataFetched {
                    store_id: f.store_id,
                    resource: f.resource,
                    accounts: payload.accounts,
                    detail: f.detail,
                },
                ctx,
            )),
            _ => Err("error happened while fetching data".to_string()),
        },
        ResponseEnum::InitResponse(i) => match i.status {
            Status::Success => {
                let store_ids = listed_ids(&i.detail).unwrap();
                let keys = keys_from(&payload.key_details).unwrap();
                Ok(act(SessionAction::Init { store_ids, keys }, ctx))
            },
            _ => Err("error happened while initializing".to_string()),
        },
        _ => {
            let e = ErrorResponse {
                message: Some("resource not supported".to_string()),
                acknowledgement: ack,
                code: Some(ErrorCode::NotSupported),
            };
            Ok(NativeOutcome { action: None, unsupported: Some(e) })
        },
    }
}


/// A successful answer to a login request, once its action is applied to the session,
/// leaves the store the request was for known and unlocked.
pub proof fn lemma_login_answer_unlocks(
    response: ResponseEnum, request: Option<PendingRequest>, ctx: Option<Detail>, payload: ResponsePayload,
    res: Result<NativeOutcome, String>, s: crate::session::SessionStore, p: crate::ports::PortRegistry,
    t: crate::session::SessionStore, q: crate::ports::PortRegistry, out: Option<crate::session::Broadcast>,
)
    requires
        response matches ResponseEnum::LoginResponse(l) && l.status == Status::Success,
        request matches Some(r) && r.kind == RequestKind::Login && r.store_id is Some,
        native_step(response, request, ctx, payload, res),
        res matches Ok(o) && o.action matches Some(w) && crate::session::session_step(w, s, p, t, q, out),
        s.wf(),
        t.wf(),
    ensures
        crate::session::has_store(t.stores@, request->0.store_id->0@),
        t.stores@[crate::session::store_index(t.stores@, request->0.store_id->0@)].verified,
{
    let w = res->Ok_0.action->0;
    match w.action {
        SessionAction::Login { .. } => {
            crate::session::lemma_login_unlocks(
                s,
                p,
                crate::session::detail_text(w.detail, DataFieldType::StoreID)->0@,
                crate::session::detail_flag(w.detail, DataFieldType::IsDefault)->0,
                crate::session::opt_seq(crate::session::detail_text(w.detail, DataFieldType::PrevStoreID)),
                crate::session::detail_ack(w.detail),
                t,
                q,
                out,
            );
        },
        _ => {},
    }
}

/// The texts of the updates, position by position.
proof fn lemma_update_models_at(u: Seq<(DataFieldType, String)>)
    ensures
        update_models(u).len() == u.len(),
        forall|i: int| 0 <= i < u.len() ==> #[trigger] update_models(u)[i] == (u[i].0, u[i].1@),
    decreases u.len(),
{
    if u.len() > 0 {
        lemma_update_models_at(u.drop_last());
    }
}

/// The updates an edit's logs call for, position by position.
proof fn lemma_update_texts_at(logs: Seq<UpdateLog>)
    ensures
        update_texts(logs).len() == logs.len(),
        forall|i: int| 0 <= i < logs.len() ==> #[trigger] update_texts(logs)[i] == (logs[i].field, json_text(logs[i].new)),
    decreases logs.len(),
{
    if logs.len() > 0 {
        lemma_update_texts_at(logs.drop_last());
    }
}

/// A successful answer to an edit becomes an edit of the same entry with one update per
/// log of the answer, in order: each sets the log's field to the JSON text of the log's
/// new value.
pub proof fn lemma_edit_answer_updates(
    response: ResponseEnum, request: Option<PendingRequest>, ctx: Option<Detail>, payload: ResponsePayload,
    res: Result<NativeOutcome, String>,
)
    requires
        response matches ResponseEnum::EditResponse(e) && e.status == Status::Success,
        native_step(response, request, ctx, payload, res),
    ensures
        res matches Ok(out) && (out.action matches Some(w) && (w.action matches SessionAction::DataEdited {
            store_id,
            resource,
            instance_id,
            updates,
        } && {
            let logs = response->EditResponse_0.update_logs@;
            &&& store_id == response->EditResponse_0.store_id
            &&& instance_id == response->EditResponse_0.instance_id
            &&& updates@.len() == logs.len()
            &&& forall|i: int| 0 <= i < logs.len() ==> #[trigger] updates@[i].0 == logs[i].field
                && updates@[i].1@ == json_text(logs[i].new)
        })),
{
    let logs = response->EditResponse_0.update_logs@;
    let w = res->Ok_0.action->0;
    let updates = w.action->DataEdited_updates;
    lemma_update_models_at(updates@);
    lemma_update_texts_at(logs);
    assert forall|i: int| 0 <= i < logs.len() implies #[trigger] updates@[i].0 == logs[i].field
        && updates@[i].1@ == json_text(logs[i].new) by {
        assert(update_models(updates@)[i] == update_texts(logs)[i]);
    }
}

} // verus!
