//! What the popup sends when the user acts: the request for the service worker, the
//! change the popup makes to its own state before the answer comes, and, for a login or a
//! store deletion, the store that the answer will be about, remembered under the
//! request's acknowledgement.
use vstd::prelude::*;
use crate::json::{JsonModel, JsonValue};
use crate::popup::{DataAction, LoginAction};
use crate::request::{detail_model, DataFieldType, Detail, RequestEnum, RequestEnumTrait};
use crate::session::detail_push;
use crate::types::Resource;
use crate::util::{create_request_acknowledgement, is_acknowledgement};

verus! {

/// A user's operation as the popup carries it out.
pub struct PopupCommand {
    /// The request posted to the service worker.
    pub request: RequestEnum,
    /// The change to the popup's login state, if any.
    pub login: Option<LoginAction>,
    /// The change to the popup's data, if any.
    pub data: Option<DataAction>,
    /// The store remembered under the request's acknowledgement, if any.
    pub context_store: Option<String>,
}

/// The request carries a fresh acknowledgement and no header.
pub open spec fn fresh_and_bare(ack: Option<String>, header_none: bool) -> bool {
    &&& ack matches Some(a) && is_acknowledgement(a@)
    &&& header_none
}

/// The acknowledgement a request carries.
pub open spec fn ack_of(r: RequestEnum) -> Option<String> {
    r.spec_acknowledgement()
}

/// An entry for an optional text: the text under `k`, or nothing.
pub open spec fn opt_entry(k: DataFieldType, v: Option<String>) -> Seq<(DataFieldType, JsonModel)> {
    match v {
        Some(s) => seq![(k, JsonModel::String(s@))],
        None => Seq::empty(),
    }
}

/// An optional text as JSON: the string, or `null`.
pub open spec fn opt_json(v: Option<String>) -> JsonModel {
    match v {
        Some(s) => JsonModel::String(s@),
        None => JsonModel::Null,
    }
}

/// The optional text as JSON.
fn opt_value(v: &Option<String>) -> (res: JsonValue)
    ensures
        res@ == opt_json(*v),
{
    match v {
        Some(s) => JsonValue::String(s.clone()),
        None => JsonValue::Null,
    }
}

/// Fetching a store's accounts: a fetch request for accounts, and the popup marks the
/// fetch as started.
pub fn fetch_accounts(store_id: Option<String>) -> (res: PopupCommand)
    ensures
        res.request matches RequestEnum::Fetch(r) && r.store_id == store_id && r.path is None
            && r.resource == Resource::Account && fresh_and_bare(r.acknowledgement, r.header is None),
        res.login is None,
        res.data == Some(DataAction::ResourceFetchStarted(Resource::Account)),
        res.context_store is None,
{
    let ack = create_request_acknowledgement();
    let request = RequestEnum::create_fetch_request(store_id, None, Resource::Account, Some(ack), None);
    PopupCommand {
        request,
        login: None,
        data: Some(DataAction::ResourceFetchStarted(Resource::Account)),
        context_store: None,
    }
}

/// Logging in to a store: a login request, the popup's login started for the store, and
/// the store remembered for the answer.
pub fn login(store_id: String, is_default: bool, prev_store_id: Option<String>) -> (res: PopupCommand)
    ensures
        res.request matches RequestEnum::Login(r) && r.store_id == Some(store_id)
            && r.prev_store_id == prev_store_id && r.is_default == is_default
            && fresh_and_bare(r.acknowledgement, r.header is None),
        res.login matches Some(LoginAction::LoginStarted(s, d)) && s == store_id && d@.len() == 0,
        res.data is None,
        res.context_store == Some(store_id),
{
    let ack = create_request_acknowledgement();
    let request = RequestEnum::create_login_request(Some(ack), Some(store_id.clone()), prev_store_id, is_default);
    PopupCommand {
        request,
        login: Some(LoginAction::LoginStarted(store_id.clone(), Vec::new())),
        data: None,
        context_store: Some(store_id),
    }
}

/// The request is the store deletion of `store_id` with `force` and acknowledgement
/// `ack`, without header.
pub open spec fn is_store_deletion(q: RequestEnum, store_id: String, force: bool, ack: String) -> bool {
    q matches RequestEnum::DeleteStore(r) && r.store_id == store_id && r.force == force
        && r.acknowledgement == Some(ack) && r.header is None
}

/// Deleting a store: the deletion request, the popup's deletion started with that request,
/// and the store remembered for the answer.
pub fn delete_store(store_id: String, force: bool) -> (res: PopupCommand)
    ensures
        ack_of(res.request) matches Some(a) && {
            &&& is_acknowledgement(a@)
            &&& is_store_deletion(res.request, store_id, force, a)
            &&& res.data matches Some(DataAction::StoreDeletionStarted(Some(q), s))
                && (is_store_deletion(q, store_id, force, a) && s == store_id)
        },
        res.login is None,
        res.context_store == Some(store_id),
{
    let ack = create_request_acknowledgement();
    let request = RequestEnum::create_delete_store_request(store_id.clone(), force, Some(ack.clone()), None);
    let copy = RequestEnum::create_delete_store_request(store_id.clone(), force, Some(ack), None);
    PopupCommand {
        request,
        login: None,
        data: Some(DataAction::StoreDeletionStarted(Some(copy), store_id.clone())),
        context_store: Some(store_id),
    }
}

/// Logging out of a store, or of every store: a logout request, and the popup's logout
/// started.
pub fn logout(store_id: Option<String>) -> (res: PopupCommand)
    ensures
        res.request matches RequestEnum::Logout(r) && r.store_id == store_id && r.user_id is None
            && fresh_and_bare(r.acknowledgement, r.header is None),
        res.login matches Some(LoginAction::LogoutStarted(d)) && d@.len() == 0,
        res.data is None,
        res.context_store is None,
{
    let request = RequestEnum::create_logout_request(None, None, store_id, None);
    PopupCommand { request, login: Some(LoginAction::LogoutStarted(Vec::new())), data: None, context_store: None }
}

/// Creating an account: a creation request for the account's fields, and the popup's
/// creation started with the username, password, domain and note.
pub fn create_account(
    store_id: String,
    domain: Option<String>,
    username: Option<String>,
    password: Option<String>,
    note: Option<String>,
) -> (res: PopupCommand)
    requires
        domain is Some,
        username is Some,
        password is Some,
        note is Some,
    ensures
        res.request matches RequestEnum::Create(r) && r.store_id == Some(store_id) && r.username == username
            && r.domain == domain && r.note == note && r.custom_fields is None
            && r.resource == Resource::Account && r.password == password
            && fresh_and_bare(r.acknowledgement, r.header is None),
        res.login is None,
        res.data matches Some(DataAction::ResourceCreationStarted(k, d)) && k == Resource::Account
            && detail_model(d@) == seq![
                (DataFieldType::Username, JsonModel::String(username->0@)),
                (DataFieldType::Password, JsonModel::String(password->0@)),
                (DataFieldType::Domain, JsonModel::String(domain->0@)),
                (DataFieldType::Note, JsonModel::String(note->0@)),
            ],
        res.context_store is None,
{
    let mut data: Detail = Vec::new();
    detail_push(&mut data, DataFieldType::Username, opt_value(&username));
    detail_push(&mut data, DataFieldType::Password, opt_value(&password));
    detail_push(&mut data, DataFieldType::Domain, opt_value(&domain));
    detail_push(&mut data, DataFieldType::Note, opt_value(&note));
    proof {
        reveal_with_fuel(detail_model, 5);
        assert(data@.drop_last().drop_last().drop_last().drop_last() =~= Seq::<(DataFieldType, JsonValue)>::empty());
    }
    let ack = create_request_acknowledgement();
    let request = RequestEnum::create_create_request(
        Some(store_id),
        username,
        domain,
        note,
        None,
        Resource::Account,
        password,
        Some(ack),
        None,
    );
    PopupCommand {
        request,
        login: None,
        data: Some(DataAction::ResourceCreationStarted(Resource::Account, data)),
        context_store: None,
    }
}

/// The edit the popup records: the account's id, then each field given.
pub open spec fn edit_payload(
    id: String, domain: Option<String>, username: Option<String>, password: Option<String>, note: Option<String>,
) -> Seq<(DataFieldType, JsonModel)> {
    seq![(DataFieldType::ResourceID, JsonModel::String(id@))]
        + opt_entry(DataFieldType::Username, username)
        + opt_entry(DataFieldType::Note, note)
        + opt_entry(DataFieldType::Domain, domain)
        + opt_entry(DataFieldType::Password, password)
}

/// The fields an edit request carries: each field, `null` when not given, and the
/// account's id.
pub open spec fn edit_fields(
    id: String, domain: Option<String>, username: Option<String>, password: Option<String>, note: Option<String>,
) -> Seq<(DataFieldType, JsonModel)> {
    seq![
        (DataFieldType::Username, opt_json(username)),
        (DataFieldType::Password, opt_json(password)),
        (DataFieldType::Domain, opt_json(domain)),
        (DataFieldType::Note, opt_json(note)),
        (DataFieldType::ResourceID, JsonModel::String(id@)),
    ]
}

/// Appends the text under `k` when there is one.
fn push_opt(d: &mut Detail, k: DataFieldType, v: &Option<String>)
    ensures
        detail_model(final(d)@) == detail_model(old(d)@) + opt_entry(k, *v),
{
    match v {
        Some(s) => {
            detail_push(d, k, JsonValue::String(s.clone()));
            assert(detail_model(final(d)@) =~= detail_model(old(d)@) + opt_entry(k, *v));
        },
        None => {
            assert(detail_model(final(d)@) =~= detail_model(old(d)@) + opt_entry(k, *v));
        },
    }
}

/// Editing an account: an edit request with every field (`null` for those not given),
/// and the popup's edit started with the id and the fields given.
pub fn edit_account(
    instance_id: String,
    domain: Option<String>,
    username: Option<String>,
    password: Option<String>,
    note: Option<String>,
    store_id: Option<String>,
) -> (res: PopupCommand)
    ensures
        res.request matches RequestEnum::Edit(r) && r.id == instance_id && r.resource == Resource::Account
            && r.domain == domain && r.store_id == store_id
            && detail_model(r.value@) == edit_fields(instance_id, domain, username, password, note)
            && fresh_and_bare(r.acknowledgement, r.header is None),
        res.login is None,
        res.data matches Some(DataAction::ResourceEditionStarted(k, d)) && k == Resource::Account
            && detail_model(d@) == edit_payload(instance_id, domain, username, password, note),
        res.context_store is None,
{
    let mut payload: Detail = Vec::new();
    detail_push(&mut payload, DataFieldType::ResourceID, JsonValue::String(instance_id.clone()));
    proof {
        reveal_with_fuel(detail_model, 2);
        assert(payload@.drop_last() =~= Seq::<(DataFieldType, JsonValue)>::empty());
    }
    push_opt(&mut payload, DataFieldType::Username, &username);
    push_opt(&mut payload, DataFieldType::Note, &note);
    push_opt(&mut payload, DataFieldType::Domain, &domain);
    push_opt(&mut payload, DataFieldType::Password, &password);
    let mut fields: Detail = Vec::new();
    detail_push(&mut fields, DataFieldType::Username, opt_value(&username));
    detail_push(&mut fields, DataFieldType::Password, opt_value(&password));
    detail_push(&mut fields, DataFieldType::Domain, opt_value(&domain));
    detail_push(&mut fields, DataFieldType::Note, opt_value(&note));
    detail_push(&mut fields, DataFieldType::ResourceID, JsonValue::String(instance_id.clone()));
    proof {
        reveal_with_fuel(detail_model, 6);
        assert(fields@.drop_last().drop_last().drop_last().drop_last().drop_last()
            =~= Seq::<(DataFieldType, JsonValue)>::empty());
        assert(detail_model(fields@) =~= edit_fields(instance_id, domain, username, password, note));
        assert(detail_model(payload@) =~= edit_payload(instance_id, domain, username, password, note));
    }
    let ack = create_request_acknowledgement();
    let request = RequestEnum::create_edit_request(
        instance_id,
        Resource::Account,
        domain,
        fields,
        Some(ack),
        None,
        store_id,
    );
    PopupCommand {
        request,
        login: None,
        data: Some(DataAction::ResourceEditionStarted(Resource::Account, payload)),
        context_store: None,
    }
}

/// Deleting a resource: a deletion request for it, and the popup's deletion started with
/// its id.
pub fn delete_resource(id: String, resource: Resource, store_id: Option<String>) -> (res: PopupCommand)
    ensures
        res.request matches RequestEnum::Delete(r) && r.id == id && r.resource == resource
            && r.store_id == store_id && fresh_and_bare(r.acknowledgement, r.header is None),
        res.login is None,
        res.data matches Some(DataAction::ResourceDeletionStarted(k, d)) && k == resource
            && detail_model(d@) == seq![(DataFieldType::ResourceID, JsonModel::String(id@))],
        res.context_store is None,
{
    let mut data: Detail = Vec::new();
    detail_push(&mut data, DataFieldType::ResourceID, JsonValue::String(id.clone()));
    proof {
        reveal_with_fuel(detail_model, 2);
        assert(data@.drop_last() =~= Seq::<(DataFieldType, JsonValue)>::empty());
    }
    let ack = create_request_acknowledgement();
    let kind = resource.copy();
    let request = RequestEnum::create_delete_request(id, resource, Some(ack), None, store_id);
    PopupCommand {
        request,
        login: None,
        data: Some(DataAction::ResourceDeletionStarted(kind, data)),
        context_store: None,
    }
}

/// The request is the creation of store `store_id` under `parent_store`, encrypted for
/// `recipients`, with `signers` as its valid signers, with acknowledgement `ack` and
/// without header.
pub open spec fn is_store_creation(
    q: RequestEnum, store_id: String, parent_store: Option<String>, recipients: Seq<String>,
    signers: Seq<String>, is_repo: bool, repo_signing_key: Option<String>, ack: String,
) -> bool {
    q matches RequestEnum::CreateStore(r) && {
        &&& r.store_name == store_id
        &&& r.parent_store == parent_store
        &&& r.encryption_keys@ == recipients
        &&& (r.valid_signing_keys matches Some(s) && s@ == signers)
        &&& r.is_repo == is_repo
        &&& r.repo_signing_key == repo_signing_key
        &&& r.acknowledgement == Some(ack)
        &&& r.header is None
    }
}

/// Creating a store: the creation request, and the popup's creation started with that
/// request and its acknowledgement.
pub fn create_store(
    store_id: String,
    parent_store: Option<String>,
    recipients: Vec<String>,
    signers: Vec<String>,
    is_repo: bool,
    repo_signing_key: Option<String>,
) -> (res: PopupCommand)
    ensures
        ack_of(res.request) matches Some(a) && {
            &&& is_acknowledgement(a@)
            &&& is_store_creation(res.request, store_id, parent_store, recipients@, signers@, is_repo, repo_signing_key, a)
            &&& res.data matches Some(DataAction::StoreCreationStarted(Some(q), t)) && (is_store_creation(
                q, store_id, parent_store, recipients@, signers@, is_repo, repo_signing_key, a,
            ) && t == a)
        },
        res.login is None,
        res.context_store is None,
{
    let ack = create_request_acknowledgement();
    let copy = RequestEnum::create_create_store_request(
        parent_store.clone(),
        store_id.clone(),
        crate::ports::copy_texts(&recipients),
        Some(crate::ports::copy_texts(&signers)),
        is_repo,
        repo_signing_key.clone(),
        Some(ack.clone()),
        None,
    );
    let request = RequestEnum::create_create_store_request(
        parent_store,
        store_id,
        recipients,
        Some(signers),
        is_repo,
        repo_signing_key,
        Some(ack.clone()),
        None,
    );
    PopupCommand {
        request,
        login: None,
        data: Some(DataAction::StoreCreationStarted(Some(copy), ack)),
        context_store: None,
    }
}

} // verus!
