//! How the service worker answers a request that a popup or a content script sends over
//! its port: it forwards the request to the native host, answers from the session state,
//! or reports an error, and records which port asked and which ports listen to a store.
use vstd::prelude::*;
use crate::json::{json_model_seq, JsonMap, JsonModel, JsonValue};
use crate::ports::{PendingRequest, PortRegistry, RequestKind};
use crate::request::{
    detail_model, field_name, DataFieldType, Detail, Header, NotificationTarget, RequestEnum,
    RequestEnumTrait, SessionEvent, SessionEventType, InitRequest, request_type_name,
};
use crate::response::{ErrorCode, ErrorResponse};
use crate::session::{
    detail_push, has_store, init_data, is_fresh_store, keys_json, store_id_list,
    store_id_strings, store_index, texts_json, SessionStore, fresh_store, find_store, opt_seq,
    detail_object,
};
use crate::text::append_text;
use crate::types::{account_json, Account, StateStoreStatus, StorageStatus};
use crate::request::copy_detail;

verus! {

/// What the service worker does with a request from a port.
pub enum Routing {
    /// Send the request to the native host.
    Forward(RequestEnum),
    /// Send the event to the port that asked, and to no other.
    Whisper(SessionEvent),
    /// Answer the port that asked with an error.
    Reply(ErrorResponse),
    /// Send nothing: an answer is already on its way.
    Idle,
}

/// The outcome of a request: the name of the port that asked, and what to send.
pub struct Routed {
    pub port_name: String,
    pub routing: Routing,
}

/// The kind of a request.
pub open spec fn request_kind(r: RequestEnum) -> RequestKind {
    match r {
        RequestEnum::Get(_) => RequestKind::Get,
        RequestEnum::Delete(_) => RequestKind::Delete,
        RequestEnum::Edit(_) => RequestKind::Edit,
        RequestEnum::Search(_) => RequestKind::Search,
        RequestEnum::Fetch(_) => RequestKind::Fetch,
        RequestEnum::Login(_) => RequestKind::Login,
        RequestEnum::Logout(_) => RequestKind::Logout,
        RequestEnum::Init(_) => RequestKind::Init,
        RequestEnum::Create(_) => RequestKind::Create,
        RequestEnum::CreateStore(_) => RequestKind::CreateStore,
        RequestEnum::DeleteStore(_) => RequestKind::DeleteStore,
        RequestEnum::SessionEventRequest(_) => RequestKind::SessionEvent,
    }
}

/// What is remembered of a request forwarded to the native host.
pub open spec fn pending_of(r: RequestEnum) -> PendingRequest {
    PendingRequest {
        kind: request_kind(r),
        store_id: r.spec_store_id(),
        prev_store_id: match r {
            RequestEnum::Login(l) => l.prev_store_id,
            _ => None,
        },
        is_default: match r {
            RequestEnum::Login(l) => l.is_default,
            _ => false,
        },
        acknowledgement: r.spec_acknowledgement(),
    }
}

/// The record kept of a request forwarded to the native host.
pub fn pending_request(r: &RequestEnum) -> (res: PendingRequest)
    ensures
        res == pending_of(*r),
{
    let kind = match r {
        RequestEnum::Get(_) => RequestKind::Get,
        RequestEnum::Delete(_) => RequestKind::Delete,
        RequestEnum::Edit(_) => RequestKind::Edit,
        RequestEnum::Search(_) => RequestKind::Search,
        RequestEnum::Fetch(_) => RequestKind::Fetch,
        RequestEnum::Login(_) => RequestKind::Login,
        RequestEnum::Logout(_) => RequestKind::Logout,
        RequestEnum::Init(_) => RequestKind::Init,
        RequestEnum::Create(_) => RequestKind::Create,
        RequestEnum::CreateStore(_) => RequestKind::CreateStore,
        RequestEnum::DeleteStore(_) => RequestKind::DeleteStore,
        RequestEnum::SessionEventRequest(_) => RequestKind::SessionEvent,
    };
    let (prev_store_id, is_default) = match r {
        RequestEnum::Login(l) => (l.prev_store_id.clone(), l.is_default),
        _ => (None, false),
    };
    PendingRequest {
        kind,
        store_id: r.get_store_id(),
        prev_store_id,
        is_default,
        acknowledgement: r.get_acknowledgement(),
    }
}

/// The value of the first configuration entry with the key.
pub open spec fn config_value(c: Seq<(DataFieldType, String)>, k: DataFieldType) -> Option<Seq<char>>
    decreases c.len(),
{
    if c.len() == 0 {
        None
    } else if c[0].0 == k {
        Some(c[0].1@)
    } else {
        config_value(c.drop_first(), k)
    }
}

/// The init request comes from a content script.
pub open spec fn from_content_script(i: InitRequest) -> bool {
    config_value(i.config@, DataFieldType::ContentScript) == Some("true"@)
}

/// The value of the first configuration entry with the key.
pub fn config_lookup<'a>(c: &'a Vec<(DataFieldType, String)>, k: &DataFieldType) -> (res: Option<&'a String>)
    ensures
        match res {
            Some(v) => config_value(c@, *k) == Some(v@),
            None => config_value(c@, *k) is None,
        },
{
    let mut i: usize = 0;
    assert(c@.skip(0) =~= c@);
    while i < c.len()
        invariant
            i <= c@.len(),
            config_value(c@, *k) == config_value(c@.skip(i as int), *k),
        decreases c@.len() - i,
    {
        assert(c@.skip(i as int).drop_first() =~= c@.skip(i + 1));
        if c[i].0 == *k {
            return Some(&c[i].1);
        }
        i = i + 1;
    }
    None
}

/// Whether the text is `true`.
fn is_true_text(s: &String) -> (res: bool)
    ensures
        res == (s@ == "true"@),
{
    proof {
        reveal_strlit("true");
    }
    let cs = crate::text::chars_of(s.as_str());
    if cs.len() != 4 {
        return false;
    }
    let r = cs[0] == 't' && cs[1] == 'r' && cs[2] == 'u' && cs[3] == 'e';
    if r {
        assert(s@ =~= "true"@);
    }
    r
}

/// The init request comes from a content script.
pub fn is_content_script(i: &InitRequest) -> (res: bool)
    ensures
        res == from_content_script(*i),
{
    match config_lookup(&i.config, &DataFieldType::ContentScript) {
        Some(v) => is_true_text(v),
        None => false,
    }
}

/// What the service worker can answer: a request with an acknowledgement, and, when the
/// native host is connected, neither a lookup nor a search, an init request from a popup
/// only once the session is loading or loaded, and a fetch or login only with a store
/// id, a fetch only for a store whose loading has not failed.
pub open spec fn routable(s: SessionStore, req: RequestEnum, native: bool) -> bool {
    &&& req.spec_acknowledgement() is Some
    &&& native ==> match req {
        RequestEnum::Get(_) => false,
        RequestEnum::Search(_) => false,
        RequestEnum::Init(i) => !from_content_script(i) ==> !(s.status is Uninitialized) && !(s.status is Error),
        RequestEnum::Fetch(f) => f.store_id is Some && (has_store(s.stores@, f.store_id->0@) ==> !(s.stores@[store_index(
            s.stores@,
            f.store_id->0@,
        )].storage_status is Error)),
        RequestEnum::Login(l) => l.store_id is Some,
        _ => true,
    }
}

/// The name the asking port has: its own, or the request's acknowledgement when it has
/// none.
pub open spec fn port_name_for(name: Seq<char>, ack: Seq<char>) -> Seq<char> {
    if name.len() == 0 { ack } else { name }
}

/// The ports after a request: connected ports are unchanged; `listened` is added to the
/// listening pairs; the asking port is recorded under the acknowledgement when it was
/// unnamed or the request is forwarded; a forwarded request is recorded.
pub open spec fn ports_after(
    p: PortRegistry, q: PortRegistry, ack: Seq<char>, name: Seq<char>, renamed: bool,
    listened: Option<Seq<char>>, forwarded: Option<PendingRequest>,
) -> bool {
    &&& q.wf()
    &&& q.connected == p.connected
    &&& q.listening() == match listened {
        Some(st) => p.listening().insert((st, name)),
        None => p.listening(),
    }
    &&& q.port_of(ack) == if renamed || forwarded is Some { Some(name) } else { p.port_of(ack) }
    &&& forall|a: Seq<char>| a != ack ==> #[trigger] q.port_of(a) == p.port_of(a)
    &&& q.request_of(ack) == match forwarded {
        Some(r) => Some(r),
        None => p.request_of(ack),
    }
    &&& forall|a: Seq<char>| a != ack ==> #[trigger] q.request_of(a) == p.request_of(a)
}

/// The request as forwarded: with an empty header.
pub open spec fn forwarded_as(req: RequestEnum, out: RequestEnum) -> bool {
    exists|h: Header| h@.len() == 0 && #[trigger] req.spec_with_header(h) == out
}

/// An event whispered to the asking port: no meta, not global, for the port only.
pub open spec fn whispered(e: SessionEvent, name: Seq<char>, ack: Option<String>) -> bool {
    &&& e.meta is None
    &&& !e.is_global
    &&& e.notification_target matches NotificationTarget::Port { port_id } && port_id@ == name
    &&& e.acknowledgement == ack
}

/// The members describing the default store to a content script.
pub open spec fn default_store_members(s: SessionStore) -> Seq<(Seq<char>, JsonModel)> {
    match s.default_store {
        Some(d) => if has_store(s.stores@, d@) {
            seq![
                (field_name(DataFieldType::DefaultStoreID), JsonModel::String(d@)),
                (field_name(DataFieldType::DefaultStoreAvailable), JsonModel::Bool(true)),
            ]
        } else {
            seq![(field_name(DataFieldType::DefaultStoreAvailable), JsonModel::Bool(false))]
        },
        None => seq![(field_name(DataFieldType::DefaultStoreAvailable), JsonModel::Bool(false))],
    }
}

/// The JSON array of the accounts.
pub open spec fn accounts_models(a: Seq<Account>) -> Seq<JsonModel>
    decreases a.len(),
{
    if a.len() == 0 {
        Seq::empty()
    } else {
        accounts_models(a.drop_last()).push(account_json(a.last()))
    }
}

/// The session after a fetch: the store is added, fresh and locked, if it is unknown.
pub open spec fn fetch_session(s: SessionStore, t: SessionStore, id: Seq<char>) -> bool {
    &&& t.wf()
    &&& t.keys == s.keys
    &&& t.default_store == s.default_store
    &&& t.status == s.status
    &&& if has_store(s.stores@, id) {
        t.stores@ == s.stores@
    } else {
        t.stores@.len() == s.stores@.len() + 1 && t.stores@.drop_last() == s.stores@ && is_fresh_store(
            t.stores@.last(),
            id,
            false,
        )
    }
}

/// What routing a request does, for each kind of request.
pub open spec fn route_step(
    s: SessionStore, p: PortRegistry, req: RequestEnum, name_in: Seq<char>, native: bool,
    t: SessionStore, q: PortRegistry, out: Routed,
) -> bool {
    let ack = req.spec_acknowledgement()->0@;
    let name = port_name_for(name_in, ack);
    let renamed = name_in.len() == 0;
    &&& out.port_name@ == name
    &&& if !native {
        &&& t == s
        &&& ports_after(p, q, ack, name, renamed, None, None)
        &&& out.routing matches Routing::Whisper(e) && {
            &&& e.event_type == SessionEventType::NativeAppConnectionError
            &&& e.data is None
            &&& e.resource is None
            &&& e.store_id_index is None
            &&& whispered(e, name, req.spec_acknowledgement())
        }
    } else {
        match req {
            RequestEnum::Init(i) => if from_content_script(i) {
                let listened = match s.default_store {
                    Some(d) => Some(d@),
                    None => None,
                };
                let members = default_store_members(s);
                let payload = seq![(DataFieldType::Data, JsonModel::Object(members))];
                &&& t == s
                &&& ports_after(p, q, ack, name, renamed, listened, None)
                &&& out.routing matches Routing::Whisper(e) && {
                    &&& e.event_type matches SessionEventType::Init(d) && detail_model(d@) == payload
                    &&& e.data matches Some(d) && detail_model(d@) == payload
                    &&& e.resource is None
                    &&& opt_seq(e.store_id_index) == match i.store_id {
                        Some(x) => Some(x@),
                        None => match s.default_store {
                            Some(d) => if has_store(s.stores@, d@) { Some(d@) } else { None },
                            None => None,
                        },
                    }
                    &&& whispered(e, name, i.acknowledgement)
                }
            } else {
                let listened = match i.store_id {
                    Some(x) => Some(x@),
                    None => None,
                };
                &&& t == s
                &&& ports_after(p, q, ack, name, renamed, listened, None)
                &&& if s.status is Loading {
                    out.routing is Idle
                } else {
                    out.routing matches Routing::Whisper(e) && {
                        let payload = init_data(store_id_strings(s.stores@), s.keys@);
                        &&& e.event_type matches SessionEventType::Init(d) && detail_model(d@) == payload
                        &&& e.data matches Some(d) && detail_model(d@) == payload
                        &&& e.resource is None
                        &&& opt_seq(e.store_id_index) == opt_seq(i.store_id)
                        &&& whispered(e, name, i.acknowledgement)
                    }
                }
            },
            RequestEnum::Fetch(f) => {
                let id = f.store_id->0@;
                let status = if has_store(s.stores@, id) {
                    s.stores@[store_index(s.stores@, id)].storage_status
                } else {
                    StorageStatus::Uninitialized
                };
                &&& fetch_session(s, t, id)
                &&& match status {
                    StorageStatus::Uninitialized => {
                        &&& ports_after(p, q, ack, name, renamed, Some(id), Some(pending_of(req)))
                        &&& out.routing matches Routing::Forward(r) && forwarded_as(req, r)
                    },
                    StorageStatus::Loaded => {
                        let accs = s.stores@[store_index(s.stores@, id)].accounts@;
                        &&& ports_after(p, q, ack, name, renamed, Some(id), None)
                        &&& out.routing matches Routing::Whisper(e) && {
                            &&& e.event_type == SessionEventType::Refreshed
                            &&& e.data matches Some(d) && detail_model(d@) == seq![
                                (DataFieldType::Data, JsonModel::Array(accounts_models(accs))),
                                (DataFieldType::PortID, JsonModel::String(name)),
                            ]
                            &&& e.resource matches Some(r) && r@ == seq![f.resource]
                            &&& opt_seq(e.store_id_index) == Some(id)
                            &&& e.meta is None
                            &&& !e.is_global
                            &&& e.notification_target matches NotificationTarget::Store { store_id } && store_id@ == id
                            &&& e.acknowledgement == req.spec_acknowledgement()
                        }
                    },
                    _ => {
                        &&& ports_after(p, q, ack, name, renamed, Some(id), None)
                        &&& out.routing is Idle
                    },
                }
            },
            RequestEnum::Login(l) => {
                &&& t == s
                &&& ports_after(p, q, ack, name, renamed, Some(l.store_id->0@), Some(pending_of(req)))
                &&& out.routing matches Routing::Forward(r) && forwarded_as(req, r)
            },
            RequestEnum::SessionEventRequest(_) => {
                &&& t == s
                &&& ports_after(p, q, ack, name, renamed, None, None)
                &&& out.routing matches Routing::Reply(e) && {
                    &&& e.acknowledgement == req.spec_acknowledgement()
                    &&& e.code == Some(ErrorCode::NotSupported)
                    &&& e.message matches Some(m) && m@ == "resource not supported. received request: "@ + request_type_name(req)
                }
            },
            _ => {
                &&& t == s
                &&& ports_after(p, q, ack, name, renamed, None, Some(pending_of(req)))
                &&& out.routing matches Routing::Forward(r) && forwarded_as(req, r)
            },
        }
    }
}


/// The request with an empty header.
fn with_empty_header(req: RequestEnum) -> (res: RequestEnum)
    ensures
        forwarded_as(req, res),
{
    let mut r = req;
    let h: Header = Vec::new();
    let ghost hg = h;
    r.set_header(h);
    assert(req.spec_with_header(hg) == r);
    r
}

/// The JSON array of the accounts.
pub fn accounts_json(a: &Vec<Account>) -> (res: JsonValue)
    ensures
        res@ == JsonModel::Array(accounts_models(a@)),
{
    let mut items: Vec<JsonValue> = Vec::new();
    let mut i: usize = 0;
    while i < a.len()
        invariant
            i <= a@.len(),
            json_model_seq(items@) == accounts_models(a@.take(i as int)),
        decreases a@.len() - i,
    {
        let ghost prev = items@;
        items.push(a[i].to_json());
        assert(items@.drop_last() =~= prev);
        assert(a@.take(i + 1).drop_last() =~= a@.take(i as int));
        i = i + 1;
    }
    assert(a@.take(a@.len() as int) =~= a@);
    JsonValue::Array(items)
}

/// Records the port that asked, under the acknowledgement, when it had no name.
fn name_port(ports: &mut PortRegistry, ack: &String, port_name: String) -> (res: String)
    requires
        old(ports).wf(),
    ensures
        res@ == port_name_for(port_name@, ack@),
        ports_after(*old(ports), *final(ports), ack@, res@, port_name@.len() == 0, None, None),
{
    if port_name.as_str().is_empty() {
        ports.insert_port_id(ack.clone(), ack.clone());
        ack.clone()
    } else {
        assert(ports.listening() =~= old(ports).listening());
        port_name
    }
}

/// Records that the port listens to the store.
fn listen_to(ports: &mut PortRegistry, store: Option<&String>, name: &String)
    requires
        old(ports).wf(),
    ensures
        final(ports).wf(),
        final(ports).connected == old(ports).connected,
        final(ports).port_ids == old(ports).port_ids,
        final(ports).requests == old(ports).requests,
        final(ports).listening() == match store {
            Some(st) => old(ports).listening().insert((st@, name@)),
            None => old(ports).listening(),
        },
{
    match store {
        Some(st) => ports.listen(st, name),
        None => {},
    }
}

/// Records the forwarded request and the port that asked it.
fn record_forward(ports: &mut PortRegistry, ack: &String, name: &String, req: &RequestEnum)
    requires
        old(ports).wf(),
    ensures
        final(ports).wf(),
        final(ports).connected == old(ports).connected,
        final(ports).listening() == old(ports).listening(),
        final(ports).port_of(ack@) == Some(name@),
        forall|a: Seq<char>| a != ack@ ==> #[trigger] final(ports).port_of(a) == old(ports).port_of(a),
        final(ports).request_of(ack@) == Some(pending_of(*req)),
        forall|a: Seq<char>| a != ack@ ==> #[trigger] final(ports).request_of(a) == old(ports).request_of(a),
{
    ports.insert_request(ack.clone(), pending_request(req));
    let ghost mid = *ports;
    ports.insert_port_id(ack.clone(), name.clone());
    assert forall|a: Seq<char>| a != ack@ implies #[trigger] ports.request_of(a) == old(ports).request_of(a) by {
        assert(mid.request_of(a) == old(ports).request_of(a));
    }
}

/// A whispered event about no resource.
fn whisper_event(
    event_type: SessionEventType, data: Option<Detail>, store_id_index: Option<String>, name: &String,
    acknowledgement: Option<String>,
) -> (e: SessionEvent)
    ensures
        e.event_type == event_type,
        e.data == data,
        e.resource is None,
        e.store_id_index == store_id_index,
        whispered(e, name@, acknowledgement),
{
    SessionEvent {
        data,
        event_type,
        meta: None,
        resource: None,
        is_global: false,
        acknowledgement,
        store_id_index,
        notification_target: NotificationTarget::Port { port_id: name.clone() },
    }
}

/// The event answering a content script's init request.
fn content_script_init(session: &SessionStore, i: &InitRequest, name: &String) -> (e: SessionEvent)
    requires
        session.wf(),
    ensures
        ({
            let payload = seq![(DataFieldType::Data, JsonModel::Object(default_store_members(*session)))];
            &&& e.event_type matches SessionEventType::Init(d) && detail_model(d@) == payload
            &&& e.data matches Some(d) && detail_model(d@) == payload
        }),
        e.resource is None,
        opt_seq(e.store_id_index) == match i.store_id {
            Some(x) => Some(x@),
            None => match session.default_store {
                Some(d) => if has_store(session.stores@, d@) { Some(d@) } else { None },
                None => None,
            },
        },
        whispered(e, name@, i.acknowledgement),
{
    let mut data: Detail = Vec::new();
    let mut available: Option<String> = None;
    match &session.default_store {
        Some(d) => {
            match find_store(&session.stores, d) {
                Some(_) => {
                    detail_push(&mut data, DataFieldType::DefaultStoreID, JsonValue::String(d.clone()));
                    detail_push(&mut data, DataFieldType::DefaultStoreAvailable, JsonValue::Bool(true));
                    available = Some(d.clone());
                    proof {
                        reveal_with_fuel(crate::session::detail_entries, 3);
                        assert(data@.drop_last().drop_last() =~= Seq::<(DataFieldType, JsonValue)>::empty());
                        assert(crate::session::detail_entries(data@) =~= default_store_members(*session));
                    }
                },
                None => {
                    detail_push(&mut data, DataFieldType::DefaultStoreAvailable, JsonValue::Bool(false));
                    proof {
                        reveal_with_fuel(crate::session::detail_entries, 2);
                        assert(data@.drop_last() =~= Seq::<(DataFieldType, JsonValue)>::empty());
                        assert(crate::session::detail_entries(data@) =~= default_store_members(*session));
                    }
                },
            }
        },
        None => {
            detail_push(&mut data, DataFieldType::DefaultStoreAvailable, JsonValue::Bool(false));
            proof {
                reveal_with_fuel(crate::session::detail_entries, 2);
                assert(data@.drop_last() =~= Seq::<(DataFieldType, JsonValue)>::empty());
                assert(crate::session::detail_entries(data@) =~= default_store_members(*session));
            }
        },
    }
    let object = detail_object(data);
    let mut payload: Detail = Vec::new();
    detail_push(&mut payload, DataFieldType::Data, object);
    proof {
        reveal_with_fuel(detail_model, 2);
        assert(payload@.drop_last() =~= Seq::<(DataFieldType, JsonValue)>::empty());
        assert(detail_model(payload@) =~= seq![(DataFieldType::Data, JsonModel::Object(default_store_members(*session)))]);
    }
    let copy = copy_detail(&payload);
    let index = match &i.store_id {
        Some(x) => Some(x.clone()),
        None => available,
    };
    whisper_event(SessionEventType::Init(copy), Some(payload), index, name, i.acknowledgement.clone())
}

/// The event answering a popup's init request: the store ids and the keys.
fn popup_init(session: &SessionStore, i: &InitRequest, name: &String) -> (e: SessionEvent)
    ensures
        ({
            let payload = init_data(store_id_strings(session.stores@), session.keys@);
            &&& e.event_type matches SessionEventType::Init(d) && detail_model(d@) == payload
            &&& e.data matches Some(d) && detail_model(d@) == payload
        }),
        e.resource is None,
        opt_seq(e.store_id_index) == opt_seq(i.store_id),
        whispered(e, name@, i.acknowledgement),
{
    let ids = store_id_list(&session.stores);
    let mut payload: Detail = Vec::new();
    detail_push(&mut payload, DataFieldType::StoreIDList, texts_json(&ids));
    detail_push(&mut payload, DataFieldType::Keys, keys_json(&session.keys));
    proof {
        reveal_with_fuel(detail_model, 3);
        assert(payload@.drop_last().drop_last() =~= Seq::<(DataFieldType, JsonValue)>::empty());
        assert(detail_model(payload@) =~= init_data(store_id_strings(session.stores@), session.keys@));
    }
    let copy = copy_detail(&payload);
    whisper_event(SessionEventType::Init(copy), Some(payload), i.store_id.clone(), name, i.acknowledgement.clone())
}


/// Answers a fetch: the store is added if unknown and the port listens to it; an
/// unloaded store is fetched from the native host, a loaded one answered from the session.
fn route_fetch(
    session: SessionStore, ports: &mut PortRegistry, request: RequestEnum, ack: &String, name: String,
) -> (res: (SessionStore, Routed))
    requires
        session.wf(),
        old(ports).wf(),
        request matches RequestEnum::Fetch(f) && f.store_id is Some && (has_store(session.stores@, f.store_id->0@) ==> !(
        session.stores@[store_index(session.stores@, f.store_id->0@)].storage_status is Error)),
        request.spec_acknowledgement() == Some(*ack),
    ensures
        res.1.port_name == name,
        ({
            let f = request->Fetch_0;
            let id = f.store_id->0@;
            let s = session;
            let p = *old(ports);
            let q = *final(ports);
            let t = res.0;
            let status = if has_store(s.stores@, id) {
                s.stores@[store_index(s.stores@, id)].storage_status
            } else {
                StorageStatus::Uninitialized
            };
            &&& fetch_session(s, t, id)
            &&& match status {
                StorageStatus::Uninitialized => {
                    &&& ports_after(p, q, ack@, name@, false, Some(id), Some(pending_of(request)))
                    &&& res.1.routing matches Routing::Forward(r) && forwarded_as(request, r)
                },
                StorageStatus::Loaded => {
                    let accs = s.stores@[store_index(s.stores@, id)].accounts@;
                    &&& ports_after(p, q, ack@, name@, false, Some(id), None)
                    &&& res.1.routing matches Routing::Whisper(e) && {
                        &&& e.event_type == SessionEventType::Refreshed
                        &&& e.data matches Some(d) && detail_model(d@) == seq![
                            (DataFieldType::Data, JsonModel::Array(accounts_models(accs))),
                            (DataFieldType::PortID, JsonModel::String(name@)),
                        ]
                        &&& e.resource matches Some(r) && r@ == seq![f.resource]
                        &&& opt_seq(e.store_id_index) == Some(id)
                        &&& e.meta is None
                        &&& !e.is_global
                        &&& e.notification_target matches NotificationTarget::Store { store_id } && store_id@ == id
                        &&& e.acknowledgement == request.spec_acknowledgement()
                    }
                },
                _ => {
                    &&& ports_after(p, q, ack@, name@, false, Some(id), None)
                    &&& res.1.routing is Idle
                },
            }
        }),
{
    let mut st = session;
    let (sid, resource) = match &request {
        RequestEnum::Fetch(f) => (f.store_id.clone().unwrap(), f.resource.copy()),
        _ => {
            assert(false);
            (String::new(), crate::types::Resource::Account)
        },
    };
    let kind: u8 = match find_store(&st.stores, &sid) {
        Some(i) => match &st.stores[i].storage_status {
            StorageStatus::Uninitialized => 0,
            StorageStatus::Loaded => 1,
            StorageStatus::Loading(_) => 2,
            StorageStatus::Error => 3,
        },
        None => {
            st.put_fresh_store(&sid);
            0
        },
    };
    listen_to(ports, Some(&sid), &name);
    if kind == 0 {
        record_forward(ports, ack, &name, &request);
        let r = with_empty_header(request);
        (st, Routed { port_name: name, routing: Routing::Forward(r) })
    } else if kind == 1 {
        let i = find_store(&st.stores, &sid).unwrap();
        let mut data: Detail = Vec::new();
        detail_push(&mut data, DataFieldType::Data, accounts_json(&st.stores[i].accounts));
        detail_push(&mut data, DataFieldType::PortID, JsonValue::String(name.clone()));
        proof {
            reveal_with_fuel(detail_model, 3);
            assert(data@.drop_last().drop_last() =~= Seq::<(DataFieldType, JsonValue)>::empty());
        }
        let mut resources: Vec<crate::types::Resource> = Vec::new();
        resources.push(resource);
        let event = SessionEvent {
            data: Some(data),
            event_type: SessionEventType::Refreshed,
            meta: None,
            resource: Some(resources),
            is_global: false,
            acknowledgement: Some(ack.clone()),
            store_id_index: Some(sid.clone()),
            notification_target: NotificationTarget::Store { store_id: sid },
        };
        proof {
            assert(resources@ =~= seq![request->Fetch_0.resource]);
        }
        (st, Routed { port_name: name, routing: Routing::Whisper(event) })
    } else {
        (st, Routed { port_name: name, routing: Routing::Idle })
    }
}

/// Two steps of changes to the ports compose: naming the port, then listening and
/// forwarding.
proof fn lemma_ports_after_compose(
    p: PortRegistry, m: PortRegistry, q: PortRegistry, ack: Seq<char>, name: Seq<char>, renamed: bool,
    listened: Option<Seq<char>>, forwarded: Option<PendingRequest>,
)
    requires
        ports_after(p, m, ack, name, renamed, None, None),
        ports_after(m, q, ack, name, false, listened, forwarded),
    ensures
        ports_after(p, q, ack, name, renamed, listened, forwarded),
{
    assert forall|a: Seq<char>| a != ack implies #[trigger] q.port_of(a) == p.port_of(a) by {
        assert(m.port_of(a) == p.port_of(a));
    }
    assert forall|a: Seq<char>| a != ack implies #[trigger] q.request_of(a) == p.request_of(a) by {
        assert(m.request_of(a) == p.request_of(a));
    }
}

/// Decides what to do with a request from the port named `port_name` (empty if it has no
/// name yet): with the native host connected, an init request is answered from the
/// session, a fetch of a loaded store too, a session event is refused, and any other
/// request is forwarded to the native host; without it, the port is told that the native
/// host is unreachable.
pub fn route_request(
    session: SessionStore, ports: &mut PortRegistry, request: RequestEnum, port_name: String,
    native_connected: bool,
) -> (res: (SessionStore, Routed))
    requires
        session.wf(),
        old(ports).wf(),
        routable(session, request, native_connected),
    ensures
        res.0.wf(),
        final(ports).wf(),
        route_step(session, *old(ports), request, port_name@, native_connected, res.0, *final(ports), res.1),
{
    let ack = request.get_acknowledgement().unwrap();
    let renamed = port_name.as_str().is_empty();
    let name = name_port(ports, &ack, port_name);
    let ghost named = *ports;
    if !native_connected {
        let e = whisper_event(SessionEventType::NativeAppConnectionError, None, None, &name, Some(ack));
        return (session, Routed { port_name: name, routing: Routing::Whisper(e) });
    }
    match request {
        RequestEnum::Init(i) => {
            if is_content_script(&i) {
                let d = match &session.default_store {
                    Some(d) => Some(d),
                    None => None,
                };
                listen_to(ports, d, &name);
                proof {
                    let listened = opt_seq(session.default_store);
                    assert(ports_after(named, *ports, ack@, name@, false, listened, None));
                    lemma_ports_after_compose(*old(ports), named, *ports, ack@, name@, renamed, listened, None);
                }
                let e = content_script_init(&session, &i, &name);
                (session, Routed { port_name: name, routing: Routing::Whisper(e) })
            } else {
                let st = match &i.store_id {
                    Some(x) => Some(x),
                    None => None,
                };
                listen_to(ports, st, &name);
                proof {
                    let listened = opt_seq(i.store_id);
                    assert(ports_after(named, *ports, ack@, name@, false, listened, None));
                    lemma_ports_after_compose(*old(ports), named, *ports, ack@, name@, renamed, listened, None);
                }
                match session.status {
                    StateStoreStatus::Loading(_) => (session, Routed { port_name: name, routing: Routing::Idle }),
                    _ => {
                        let e = popup_init(&session, &i, &name);
                        (session, Routed { port_name: name, routing: Routing::Whisper(e) })
                    },
                }
            }
        },
        RequestEnum::Fetch(f) => {
            let req = RequestEnum::Fetch(f);
            let ghost nm = name@;
            let res = route_fetch(session, ports, req, &ack, name);
            proof {
                let id = req->Fetch_0.store_id->0@;
                let status = if has_store(session.stores@, id) {
                    session.stores@[store_index(session.stores@, id)].storage_status
                } else {
                    StorageStatus::Uninitialized
                };
                if status is Uninitialized {
                    lemma_ports_after_compose(*old(ports), named, *ports, ack@, nm, renamed, Some(id), Some(pending_of(req)));
                } else {
                    lemma_ports_after_compose(*old(ports), named, *ports, ack@, nm, renamed, Some(id), None);
                }
            }
            res
        },
        RequestEnum::Login(l) => {
            let sid = l.store_id.clone().unwrap();
            listen_to(ports, Some(&sid), &name);
            let req = RequestEnum::Login(l);
            record_forward(ports, &ack, &name, &req);
            proof {
                assert(ports_after(named, *ports, ack@, name@, false, Some(sid@), Some(pending_of(req))));
                lemma_ports_after_compose(*old(ports), named, *ports, ack@, name@, renamed, Some(sid@), Some(pending_of(req)));
            }
            let r = with_empty_header(req);
            (session, Routed { port_name: name, routing: Routing::Forward(r) })
        },
        RequestEnum::SessionEventRequest(w) => {
            let req = RequestEnum::SessionEventRequest(w);
            let mut message = "resource not supported. received request: ".to_string();
            append_text(&mut message, req.get_type());
            proof {
                reveal_strlit("resource not supported. received request: ");
            }
            let e = ErrorResponse { acknowledgement: Some(ack), message: Some(message), code: Some(ErrorCode::NotSupported) };
            (session, Routed { port_name: name, routing: Routing::Reply(e) })
        },
        other => {
            record_forward(ports, &ack, &name, &other);
            proof {
                assert(ports_after(named, *ports, ack@, name@, false, None, Some(pending_of(other))));
                lemma_ports_after_compose(*old(ports), named, *ports, ack@, name@, renamed, None, Some(pending_of(other)));
            }
            let r = with_empty_header(other);
            (session, Routed { port_name: name, routing: Routing::Forward(r) })
        },
    }
}


/// A port connected: it is given a fresh random name if it has none, and recorded as
/// connected under its name, which is returned.
pub fn accept_port(ports: &mut PortRegistry, port_name: String) -> (res: String)
    requires
        old(ports).wf(),
    ensures
        port_name@.len() != 0 ==> res@ == port_name@,
        port_name@.len() == 0 ==> crate::util::is_acknowledgement(res@),
        final(ports).wf(),
        final(ports).connected_set() == old(ports).connected_set().insert(res@),
        final(ports).listeners == old(ports).listeners,
        final(ports).port_ids == old(ports).port_ids,
        final(ports).requests == old(ports).requests,
{
    let name = if port_name.as_str().is_empty() {
        crate::util::create_request_acknowledgement()
    } else {
        port_name
    };
    ports.connect(name.clone());
    name
}


/// A login request that the native host refuses is answered to the port that asked for
/// it: the router remembers the asking port under the request's acknowledgement, and the
/// failure event of the session goes to that port.
pub proof fn lemma_refused_login_reaches_asker(
    s: SessionStore, p: PortRegistry, request: RequestEnum, name_in: Seq<char>, t: SessionStore,
    q: PortRegistry, routed: Routed, u: SessionStore, r: PortRegistry, out: Option<crate::session::Broadcast>,
)
    requires
        request is Login,
        request.spec_acknowledgement() is Some,
        route_step(s, p, request, name_in, true, t, q, routed),
        crate::session::session_step(
            crate::session::SessionActionWrapper { detail: None, action: crate::session::SessionAction::LoginError(pending_of(request)) },
            t,
            q,
            u,
            r,
            out,
        ),
    ensures
        out matches Some(b) && b.event.notification_target matches NotificationTarget::Port { port_id }
            && port_id@ == routed.port_name@,
{
    let ack = request.spec_acknowledgement()->0@;
    let name = port_name_for(name_in, ack);
    let req = pending_of(request);
    assert(req.acknowledgement == request.spec_acknowledgement());
    assert(ports_after(p, q, ack, name, name_in.len() == 0, Some(request->Login_0.store_id->0@), Some(req)));
    assert(q.port_of(ack) == Some(name));
    assert(crate::session::asking_port(q, req.acknowledgement) == Some(name));
}

/// A login sent on to the native host is remembered whole under its acknowledgement: the
/// store it is for, the store logged in before, whether it becomes the default, and the
/// acknowledgement itself; the asking port is remembered with it, and the request goes on.
pub proof fn lemma_forwarded_login_remembered(
    s: SessionStore, p: PortRegistry, l: crate::request::LoginRequest, name_in: Seq<char>,
    t: SessionStore, q: PortRegistry, out: Routed,
)
    requires
        routable(s, RequestEnum::Login(l), true),
        route_step(s, p, RequestEnum::Login(l), name_in, true, t, q, out),
    ensures
        l.acknowledgement matches Some(a) && q.request_of(a@) matches Some(r) && {
            &&& r.kind == RequestKind::Login
            &&& r.store_id == l.store_id
            &&& r.prev_store_id == l.prev_store_id
            &&& r.is_default == l.is_default
            &&& r.acknowledgement == l.acknowledgement
            &&& q.port_of(a@) == Some(port_name_for(name_in, a@))
        },
        out.routing is Forward,
        t == s,
{
}

} // verus!
