//! The native host's side of native messaging: the frames messages travel in, which
//! handler answers a request, the responses it sends when a handler fails, the report it
//! answers an init request with, and the search over entry ids.
use vstd::prelude::*;
use crate::json::JsonValue;
use crate::request::{detail_model, DataFieldType, Detail, RequestEnum, RequestEnumTrait};
use crate::response::{
    CreateResponse, CreateStoreResponse, DeleteResponse, DeleteStoreResponse, EditResponse,
    FetchResponse, GenericError, GetResponse, InitResponse, LoginResponse, LogoutResponse,
    ResponseEnum, SearchResponse, Status,
};
use crate::session::{detail_push, text_models, texts_json};
use crate::text::{contains_ignoring_case, seq_contains, spec_to_lowercase};
use crate::types::{key_report_json, Key, Resource};
use crate::json::{json_model_seq, JsonModel};

verus! {

/// The number that four bytes write in little-endian order.
pub open spec fn le_value(b: Seq<u8>) -> int {
    b[0] + 256 * b[1] + 65536 * b[2] + 16777216 * b[3]
}

/// The four bytes that write the number in little-endian order.
pub open spec fn le_bytes(n: u32) -> Seq<u8> {
    seq![(n % 256) as u8, ((n / 256) % 256) as u8, ((n / 65536) % 256) as u8, (n / 16777216) as u8]
}

/// The length of a message, from the four bytes that precede it.
pub fn frame_length(raw: &[u8]) -> (res: u32)
    requires
        raw@.len() == 4,
    ensures
        res == le_value(raw@),
{
    let b0 = raw[0] as u32;
    let b1 = raw[1] as u32;
    let b2 = raw[2] as u32;
    let b3 = raw[3] as u32;
    b0 + 256 * b1 + 65536 * b2 + 16777216 * b3
}

/// A message as it is sent: its length, cut to 32 bits, in four little-endian bytes,
/// then its bytes.
pub fn encode_frame(content: &[u8]) -> (res: Vec<u8>)
    ensures
        res@ == le_bytes(content@.len() as u32) + content@,
        content@.len() <= u32::MAX ==> le_value(res@.take(4)) == content@.len(),
{
    let n = content.len() as u32;
    let mut res: Vec<u8> = Vec::new();
    res.push((n % 256) as u8);
    res.push(((n / 256) % 256) as u8);
    res.push(((n / 65536) % 256) as u8);
    res.push((n / 16777216) as u8);
    let mut i: usize = 0;
    while i < content.len()
        invariant
            n == content@.len() as u32,
            i <= content@.len(),
            res@ == le_bytes(n) + content@.subrange(0, i as int),
        decreases content@.len() - i,
    {
        res.push(content[i]);
        i = i + 1;
        assert(res@ =~= le_bytes(n) + content@.subrange(0, i as int));
    }
    assert(content@.subrange(0, content@.len() as int) =~= content@);
    assert(res@.take(4) =~= le_bytes(n));
    assert(le_value(le_bytes(n)) == n) by (nonlinear_arith)
        requires
            le_bytes(n) == seq![(n % 256) as u8, ((n / 256) % 256) as u8, ((n / 65536) % 256) as u8, (n / 16777216) as u8],
    {
    }
    res
}

/// A frame read back gives the message: its first four bytes, read as a length, give the
/// message's length, and the bytes after them are the message.
pub proof fn lemma_frame_read_back(content: Seq<u8>)
    requires
        content.len() <= u32::MAX,
    ensures
        le_value((le_bytes(content.len() as u32) + content).take(4)) == content.len(),
        (le_bytes(content.len() as u32) + content).skip(4) == content,
{
    let n = content.len() as u32;
    let f = le_bytes(n) + content;
    assert(f.take(4) =~= le_bytes(n));
    assert(f.skip(4) =~= content);
    assert(le_value(le_bytes(n)) == n) by (nonlinear_arith)
        requires
            le_bytes(n) == seq![(n % 256) as u8, ((n / 256) % 256) as u8, ((n / 65536) % 256) as u8, (n / 16777216) as u8],
    {
    }
}

/// A text message as it is sent: the text written as a JSON string, framed.
pub fn string_message_frame(message: &str) -> (res: Vec<u8>)
    ensures
        ({
            let bytes = vstd::utf8::encode_utf8(crate::json::string_text(message@));
            res@ == le_bytes(bytes.len() as u32) + bytes
        }),
{
    let mut s = String::new();
    crate::json::write_string(&mut s, message);
    assert(s@ =~= crate::json::string_text(message@));
    encode_frame(s.as_str().as_bytes())
}

/// The position of the first known store whose name is `id`.
pub open spec fn store_position(names: Seq<String>, id: Seq<char>) -> Option<int> {
    if exists|i: int| 0 <= i < names.len() && names[i]@ == id && forall|j: int| 0 <= j < i ==> names[j]@ != id {
        Some(choose|i: int| 0 <= i < names.len() && names[i]@ == id && forall|j: int| 0 <= j < i ==> names[j]@ != id)
    } else {
        None
    }
}

/// The store a request names, as its position among the names of the known stores:
/// nothing when the request names no store or no known store has the name.
pub open spec fn request_store(request: RequestEnum, names: Seq<String>) -> Option<int> {
    match request.spec_store_id() {
        Some(id) => store_position(names, id@),
        None => None,
    }
}

/// The store a request names, among the names of the known stores: its position, or
/// nothing when the request names no store or no known store has that name.
pub fn get_store(request: &RequestEnum, store_names: &Vec<String>) -> (res: Option<usize>)
    ensures
        match res {
            Some(i) => request_store(*request, store_names@) == Some(i as int),
            None => request_store(*request, store_names@) is None,
        },
{
    let id = match request.get_store_id() {
        Some(id) => id,
        None => return None,
    };
    let mut i: usize = 0;
    while i < store_names.len()
        invariant
            i <= store_names@.len(),
            request.spec_store_id() == Some(id),
            forall|j: int| 0 <= j < i ==> store_names@[j]@ != id@,
        decreases store_names@.len() - i,
    {
        if crate::text::same_text(store_names[i].as_str(), id.as_str()) {
            proof {
                let n = store_names@;
                let c = choose|c: int| 0 <= c < n.len() && n[c]@ == id@ && forall|j: int| 0 <= j < c ==> n[j]@ != id@;
                assert(0 <= i < n.len() && n[i as int]@ == id@ && forall|j: int| 0 <= j < i ==> n[j]@ != id@);
                if c < i {
                    assert(n[c]@ != id@);
                } else if c > i {
                    assert(n[i as int]@ != id@);
                }
            }
            return Some(i);
        }
        i = i + 1;
    }
    proof {
        let n = store_names@;
        if exists|c: int| 0 <= c < n.len() && n[c]@ == id@ && forall|j: int| 0 <= j < c ==> n[j]@ != id@ {
            let c = choose|c: int| 0 <= c < n.len() && n[c]@ == id@ && forall|j: int| 0 <= j < c ==> n[j]@ != id@;
            assert(n[c]@ != id@);
        }
    }
    None
}

/// The handler that answers a request.
pub enum HostCall {
    Init,
    CreateStore,
    DeleteStore,
    Get,
    Search,
    Fetch,
    Login,
    Logout,
    Create,
    Delete,
    Edit,
    /// No handler: the request is unknown, or the store it names is not known.
    Unknown,
}

/// The handler for a request: init, store creation and logout in any case; the other
/// requests only when the store they name is known.
pub open spec fn call_for(request: RequestEnum, store_known: bool) -> HostCall {
    match request {
        RequestEnum::Init(_) => HostCall::Init,
        RequestEnum::CreateStore(_) => HostCall::CreateStore,
        RequestEnum::Logout(_) => HostCall::Logout,
        RequestEnum::SessionEventRequest(_) => HostCall::Unknown,
        _ => if !store_known {
            HostCall::Unknown
        } else {
            match request {
                RequestEnum::DeleteStore(_) => HostCall::DeleteStore,
                RequestEnum::Get(_) => HostCall::Get,
                RequestEnum::Search(_) => HostCall::Search,
                RequestEnum::Fetch(_) => HostCall::Fetch,
                RequestEnum::Login(_) => HostCall::Login,
                RequestEnum::Create(_) => HostCall::Create,
                RequestEnum::Delete(_) => HostCall::Delete,
                _ => HostCall::Edit,
            }
        },
    }
}

/// The handler that answers a request, given whether the store it names is known.
pub fn host_call(request: &RequestEnum, store_known: bool) -> (res: HostCall)
    ensures
        res == call_for(*request, store_known),
{
    match request {
        RequestEnum::Init(_) => HostCall::Init,
        RequestEnum::CreateStore(_) => HostCall::CreateStore,
        RequestEnum::Logout(_) => HostCall::Logout,
        RequestEnum::SessionEventRequest(_) => HostCall::Unknown,
        _ => if !store_known {
            HostCall::Unknown
        } else {
            match request {
                RequestEnum::DeleteStore(_) => HostCall::DeleteStore,
                RequestEnum::Get(_) => HostCall::Get,
                RequestEnum::Search(_) => HostCall::Search,
                RequestEnum::Fetch(_) => HostCall::Fetch,
                RequestEnum::Login(_) => HostCall::Login,
                RequestEnum::Create(_) => HostCall::Create,
                RequestEnum::Delete(_) => HostCall::Delete,
                _ => HostCall::Edit,
            }
        },
    }
}

/// The detail of a failure: the handler's error under `ErrorMessage`.
pub open spec fn error_only(error: JsonModel) -> Seq<(DataFieldType, JsonModel)> {
    seq![(DataFieldType::ErrorMessage, error)]
}

/// The detail of a failed search or fetch: an empty list under `Data`.
pub open spec fn empty_data() -> Seq<(DataFieldType, JsonModel)> {
    seq![(DataFieldType::Data, JsonModel::Array(Seq::empty()))]
}

/// The text of an optional store id, empty when there is none.
pub open spec fn text_or_empty(s: Option<String>) -> Seq<char> {
    match s {
        Some(x) => x@,
        None => Seq::empty(),
    }
}

/// The response a handler's failure is answered with, for each kind of request, with the
/// error the handler reported; a lookup's answer also carries the request.
pub open spec fn failure_for(request: RequestEnum, error: JsonModel, request_json: JsonModel, res: ResponseEnum) -> bool {
    match request {
        RequestEnum::Init(r) => res matches ResponseEnum::InitResponse(x) && x.status == Status::Failure
            && x.acknowledgement == r.acknowledgement && detail_model(x.detail@) == error_only(error),
        RequestEnum::CreateStore(r) => res matches ResponseEnum::CreateStoreResponse(x) && x.status == Status::Failure
            && x.acknowledgement == r.acknowledgement && x.store_id == r.store_name
            && x.store_path@ == text_or_empty(r.parent_store) && detail_model(x.detail@) == error_only(error),
        RequestEnum::DeleteStore(r) => res matches ResponseEnum::DeleteStoreResponse(x) && x.status == Status::Failure
            && x.acknowledgement == r.acknowledgement && x.store_id == r.store_id
            && detail_model(x.detail@) == error_only(error),
        RequestEnum::Get(r) => res matches ResponseEnum::GetResponse(x) && x.status == Status::Failure
            && x.acknowledgement == r.acknowledgement && x.resource == Resource::Password
            && detail_model(x.detail@) == seq![
                (DataFieldType::ErrorMessage, error),
                (DataFieldType::Request, request_json),
            ],
        RequestEnum::Search(r) => res matches ResponseEnum::SearchResponse(x) && x.status == Status::Failure
            && x.acknowledgement == r.acknowledgement && Some(x.store_id) == r.store_id && x.resource == r.resource
            && detail_model(x.detail@) == empty_data(),
        RequestEnum::Fetch(r) => res matches ResponseEnum::FetchResponse(x) && x.status == Status::Failure
            && x.acknowledgement == r.acknowledgement && Some(x.store_id) == r.store_id && x.resource == r.resource
            && detail_model(x.detail@) == empty_data(),
        RequestEnum::Login(r) => res matches ResponseEnum::LoginResponse(x) && x.status == Status::Failure
            && x.acknowledgement == r.acknowledgement && Some(x.store_id) == r.store_id
            && detail_model(x.detail@) == error_only(error),
        RequestEnum::Logout(r) => res matches ResponseEnum::LogoutResponse(x) && x.status == Status::Failure
            && x.acknowledgement == r.acknowledgement && x.store_id == r.store_id
            && detail_model(x.detail@) == error_only(error),
        RequestEnum::Create(r) => res matches ResponseEnum::CreateResponse(x) && x.status == Status::Failure
            && x.acknowledgement == r.acknowledgement && Some(x.store_id) == r.store_id && x.resource == r.resource
            && detail_model(x.detail@) == error_only(error),
        RequestEnum::Delete(r) => res matches ResponseEnum::DeleteResponse(x) && x.status == Status::Failure
            && x.acknowledgement == r.acknowledgement && x.deleted_resource_id == r.id
            && detail_model(x.detail@) == error_only(error),
        RequestEnum::Edit(r) => res matches ResponseEnum::EditResponse(x) && x.status == Status::Failure
            && x.acknowledgement == r.acknowledgement && Some(x.store_id) == r.store_id && x.instance_id == r.id
            && x.resource == r.resource && detail_model(x.detail@) == error_only(error) && x.update_logs@.len() == 0,
        RequestEnum::SessionEventRequest(r) => res matches ResponseEnum::GenericError(x) && x.status == Status::Failure
            && x.acknowledgement == r.spec_acknowledgement() && detail_model(x.detail@) == seq![
                (DataFieldType::ErrorMessage, JsonModel::String("Unknown request"@)),
                (DataFieldType::Request, request_json),
            ],
    }
}

/// The answer to a request that no handler takes: a generic error with the request.
pub open spec fn unknown_for(request: RequestEnum, request_json: JsonModel, res: ResponseEnum) -> bool {
    res matches ResponseEnum::GenericError(x) && x.status == Status::Failure
        && x.acknowledgement == request.spec_acknowledgement() && detail_model(x.detail@) == seq![
            (DataFieldType::ErrorMessage, JsonModel::String("Unknown request"@)),
            (DataFieldType::Request, request_json),
        ]
}

/// A detail with one entry.
fn detail_of(k: DataFieldType, v: JsonValue) -> (res: Detail)
    ensures
        detail_model(res@) == seq![(k, v@)],
{
    let mut d: Detail = Vec::new();
    detail_push(&mut d, k, v);
    proof {
        reveal_with_fuel(detail_model, 2);
        assert(d@.drop_last() =~= Seq::<(DataFieldType, JsonValue)>::empty());
        assert(detail_model(d@) =~= seq![(k, v@)]);
    }
    d
}

/// A detail with two entries.
fn detail_of2(k1: DataFieldType, v1: JsonValue, k2: DataFieldType, v2: JsonValue) -> (res: Detail)
    ensures
        detail_model(res@) == seq![(k1, v1@), (k2, v2@)],
{
    let mut d: Detail = Vec::new();
    detail_push(&mut d, k1, v1);
    detail_push(&mut d, k2, v2);
    proof {
        reveal_with_fuel(detail_model, 3);
        assert(d@.drop_last().drop_last() =~= Seq::<(DataFieldType, JsonValue)>::empty());
        assert(detail_model(d@) =~= seq![(k1, v1@), (k2, v2@)]);
    }
    d
}

/// The answer to a request that no handler takes.
pub fn unknown_request_response(request: &RequestEnum, request_json: JsonValue) -> (res: ResponseEnum)
    ensures
        unknown_for(*request, request_json@, res),
{
    proof {
        reveal_strlit("Unknown request");
    }
    let detail = detail_of2(
        DataFieldType::ErrorMessage,
        JsonValue::String("Unknown request".to_string()),
        DataFieldType::Request,
        request_json,
    );
    ResponseEnum::GenericError(GenericError {
        status: Status::Failure,
        acknowledgement: request.get_acknowledgement(),
        detail,
    })
}

/// The response a handler's failure is answered with, given the error it reported and,
/// for a lookup, the request as JSON. A search, fetch, login, create or edit request
/// names its store: a handler only runs for a known store.
pub fn failure_response(request: RequestEnum, error: JsonValue, request_json: JsonValue) -> (res: ResponseEnum)
    requires
        match request {
            RequestEnum::Search(r) => r.store_id is Some,
            RequestEnum::Fetch(r) => r.store_id is Some,
            RequestEnum::Login(r) => r.store_id is Some,
            RequestEnum::Create(r) => r.store_id is Some,
            RequestEnum::Edit(r) => r.store_id is Some,
            _ => true,
        },
    ensures
        failure_for(request, error@, request_json@, res),
{
    match request {
        RequestEnum::Init(r) => ResponseEnum::InitResponse(InitResponse {
            status: Status::Failure,
            acknowledgement: r.acknowledgement,
            detail: detail_of(DataFieldType::ErrorMessage, error),
        }),
        RequestEnum::CreateStore(r) => {
            let store_path = match r.get_store_path() {
                Some(p) => p,
                None => String::new(),
            };
            ResponseEnum::CreateStoreResponse(CreateStoreResponse {
                status: Status::Failure,
                store_path,
                store_id: r.get_store_name(),
                acknowledgement: r.acknowledgement,
                detail: detail_of(DataFieldType::ErrorMessage, error),
            })
        },
        RequestEnum::DeleteStore(r) => ResponseEnum::DeleteStoreResponse(DeleteStoreResponse {
            status: Status::Failure,
            store_id: r.store_id,
            acknowledgement: r.acknowledgement,
            detail: detail_of(DataFieldType::ErrorMessage, error),
        }),
        RequestEnum::Get(r) => ResponseEnum::GetResponse(GetResponse {
            status: Status::Failure,
            acknowledgement: r.acknowledgement,
            detail: detail_of2(DataFieldType::ErrorMessage, error, DataFieldType::Request, request_json),
            resource: Resource::Password,
        }),
        RequestEnum::Search(r) => ResponseEnum::SearchResponse(SearchResponse {
            store_id: r.store_id.unwrap(),
            status: Status::Failure,
            acknowledgement: r.acknowledgement,
            detail: detail_of(DataFieldType::Data, JsonValue::Array(Vec::new())),
            resource: r.resource,
        }),
        RequestEnum::Fetch(r) => ResponseEnum::FetchResponse(FetchResponse {
            store_id: r.store_id.unwrap(),
            status: Status::Failure,
            acknowledgement: r.acknowledgement,
            detail: detail_of(DataFieldType::Data, JsonValue::Array(Vec::new())),
            resource: r.resource,
        }),
        RequestEnum::Login(r) => ResponseEnum::LoginResponse(LoginResponse {
            status: Status::Failure,
            acknowledgement: r.acknowledgement,
            store_id: r.store_id.unwrap(),
            detail: detail_of(DataFieldType::ErrorMessage, error),
        }),
        RequestEnum::Logout(r) => ResponseEnum::LogoutResponse(LogoutResponse {
            store_id: r.store_id,
            status: Status::Failure,
            acknowledgement: r.acknowledgement,
            detail: detail_of(DataFieldType::ErrorMessage, error),
        }),
        RequestEnum::Create(r) => ResponseEnum::CreateResponse(CreateResponse {
            status: Status::Failure,
            store_id: r.store_id.unwrap(),
            acknowledgement: r.acknowledgement,
            detail: detail_of(DataFieldType::ErrorMessage, error),
            resource: r.resource,
        }),
        RequestEnum::Delete(r) => ResponseEnum::DeleteResponse(DeleteResponse {
            status: Status::Failure,
            deleted_resource_id: r.id,
            acknowledgement: r.acknowledgement,
            detail: detail_of(DataFieldType::ErrorMessage, error),
        }),
        RequestEnum::Edit(r) => ResponseEnum::EditResponse(EditResponse {
            store_id: r.store_id.unwrap(),
            instance_id: r.id,
            status: Status::Failure,
            acknowledgement: r.acknowledgement,
            detail: detail_of(DataFieldType::ErrorMessage, error),
            resource: r.resource,
            update_logs: Vec::new(),
        }),
        RequestEnum::SessionEventRequest(w) => {
            let req = RequestEnum::SessionEventRequest(w);
            unknown_request_response(&req, request_json)
        },
    }
}

/// The reports of the usable keys, in order.
pub open spec fn usable_key_reports(keys: Seq<Key>) -> Seq<JsonModel>
    decreases keys.len(),
{
    if keys.len() == 0 {
        Seq::empty()
    } else {
        let rest = usable_key_reports(keys.drop_last());
        if keys.last().is_usable { rest.push(key_report_json(keys.last())) } else { rest }
    }
}

/// The reports of the usable keys.
fn usable_keys_json(keys: &Vec<Key>) -> (res: JsonValue)
    ensures
        res@ == JsonModel::Array(usable_key_reports(keys@)),
{
    let mut items: Vec<JsonValue> = Vec::new();
    let mut i: usize = 0;
    while i < keys.len()
        invariant
            i <= keys@.len(),
            json_model_seq(items@) == usable_key_reports(keys@.take(i as int)),
        decreases keys@.len() - i,
    {
        assert(keys@.take(i + 1).drop_last() =~= keys@.take(i as int));
        if keys[i].is_usable {
            let ghost prev = items@;
            items.push(keys[i].to_json());
            assert(items@.drop_last() =~= prev);
        }
        i = i + 1;
    }
    assert(keys@.take(keys@.len() as int) =~= keys@);
    JsonValue::Array(items)
}

/// The answer to an init request: the names of the stores and the reports of the usable
/// keys.
pub fn init_report(acknowledgement: Option<String>, store_names: &Vec<String>, keys: &Vec<Key>) -> (res: InitResponse)
    ensures
        res.status == Status::Success,
        res.acknowledgement == acknowledgement,
        detail_model(res.detail@) == seq![
            (DataFieldType::StoreIDList, JsonModel::Array(text_models(store_names@))),
            (DataFieldType::Keys, JsonModel::Array(usable_key_reports(keys@))),
        ],
{
    let detail = detail_of2(DataFieldType::StoreIDList, texts_json(store_names), DataFieldType::Keys, usable_keys_json(keys));
    InitResponse { status: Status::Success, acknowledgement, detail }
}

/// The ids that contain the query, ignoring case, in order.
pub open spec fn ids_matching(ids: Seq<String>, query: Seq<char>) -> Seq<String>
    decreases ids.len(),
{
    if ids.len() == 0 {
        Seq::empty()
    } else {
        let rest = ids_matching(ids.drop_last(), query);
        if seq_contains(spec_to_lowercase(ids.last()@), spec_to_lowercase(query)) {
            rest.push(ids.last())
        } else {
            rest
        }
    }
}

/// The entry ids that contain the query, ignoring case, in order.
pub fn filter_entries(ids: &Vec<String>, query: &str) -> (res: Vec<String>)
    ensures
        res@ == ids_matching(ids@, query@),
{
    let mut out: Vec<String> = Vec::new();
    let mut i: usize = 0;
    while i < ids.len()
        invariant
            i <= ids@.len(),
            out@ == ids_matching(ids@.take(i as int), query@),
        decreases ids@.len() - i,
    {
        assert(ids@.take(i + 1).drop_last() =~= ids@.take(i as int));
        if contains_ignoring_case(ids[i].as_str(), query) {
            out.push(ids[i].clone());
        }
        i = i + 1;
    }
    assert(ids@.take(ids@.len() as int) =~= ids@);
    out
}

/// Which handler answers a request: init, store creation and logout have their own
/// handler whether or not a store of the name they give is known; a session-event request
/// has none; every other request has a handler exactly when the store it names is known.
pub proof fn lemma_handler_choice(r: RequestEnum, known: bool)
    ensures
        r is Init ==> call_for(r, known) == HostCall::Init,
        r is CreateStore ==> call_for(r, known) == HostCall::CreateStore,
        r is Logout ==> call_for(r, known) == HostCall::Logout,
        r is SessionEventRequest ==> call_for(r, known) == HostCall::Unknown,
        !(r is Init || r is CreateStore || r is Logout || r is SessionEventRequest) ==> (call_for(r, known)
            is Unknown <==> !known),
{
}

} // verus!
