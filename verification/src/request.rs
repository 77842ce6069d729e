//! Requests that the extension's components send to each other and to the native host,
//! and the session events that the service worker broadcasts.
use vstd::prelude::*;
use crate::json::{JsonModel, JsonValue};
use crate::types::Resource;
use crate::util::{create_request_acknowledgement, is_acknowledgement};

verus! {

/// The keys of the detail maps that messages carry.
#[derive(Clone, Debug, PartialEq, Eq, Structural)]
pub enum DataFieldType {
    ErrorType,
    InitError,
    NativeAppConnectionError,
    CanSign,
    CanEncrypt,
    Keys,
    KeyHasSecret,
    KeyID,
    KeyFingerprint,
    KeyUserID,
    KeyUsable,
    KeyUsername,
    HomeDir,
    IsRepo,
    SubStore,
    IsDefault,
    DefaultStoreID,
    DefaultStoreAvailable,
    ContentScript,
    Request,
    SigningKey,
    StoreDir,
    StoreID,
    StorePath,
    ResourceID,
    UserID,
    Username,
    Passphrase,
    Password,
    Note,
    Recipient,
    ValidSignerList,
    RepoSigningKey,
    CustomField,
    Domain,
    Path,
    Resource,
    Query,
    Value,
    Verified,
    Error,
    ErrorMessage,
    ErrorCode,
    ErrorSource,
    Update,
    UpdatedFields,
    Delete,
    Create,
    Search,
    Fetch,
    Login,
    Logout,
    Status,
    Acknowledgement,
    Data,
    CreateStore,
    StoreIDList,
    ParentStoreId,
    PrevStoreID,
    PortID,
}

/// The name a detail key is written with in messages: the variant's name in snake case.
pub open spec fn field_name(f: DataFieldType) -> Seq<char> {
    match f {
        DataFieldType::ErrorType => "error_type"@,
        DataFieldType::InitError => "init_error"@,
        DataFieldType::NativeAppConnectionError => "native_app_connection_error"@,
        DataFieldType::CanSign => "can_sign"@,
        DataFieldType::CanEncrypt => "can_encrypt"@,
        DataFieldType::Keys => "keys"@,
        DataFieldType::KeyHasSecret => "key_has_secret"@,
        DataFieldType::KeyID => "key_i_d"@,
        DataFieldType::KeyFingerprint => "key_fingerprint"@,
        DataFieldType::KeyUserID => "key_user_i_d"@,
        DataFieldType::KeyUsable => "key_usable"@,
        DataFieldType::KeyUsername => "key_username"@,
        DataFieldType::HomeDir => "home_dir"@,
        DataFieldType::IsRepo => "is_repo"@,
        DataFieldType::SubStore => "sub_store"@,
        DataFieldType::IsDefault => "is_default"@,
        DataFieldType::DefaultStoreID => "default_store_i_d"@,
        DataFieldType::DefaultStoreAvailable => "default_store_available"@,
        DataFieldType::ContentScript => "content_script"@,
        DataFieldType::Request => "request"@,
        DataFieldType::SigningKey => "signing_key"@,
        DataFieldType::StoreDir => "store_dir"@,
        DataFieldType::StoreID => "store_i_d"@,
        DataFieldType::StorePath => "store_path"@,
        DataFieldType::ResourceID => "resource_i_d"@,
        DataFieldType::UserID => "user_i_d"@,
        DataFieldType::Username => "username"@,
        DataFieldType::Passphrase => "passphrase"@,
        DataFieldType::Password => "password"@,
        DataFieldType::Note => "note"@,
        DataFieldType::Recipient => "recipient"@,
        DataFieldType::ValidSignerList => "valid_signer_list"@,
        DataFieldType::RepoSigningKey => "repo_signing_key"@,
        DataFieldType::CustomField => "custom_field"@,
        DataFieldType::Domain => "domain"@,
        DataFieldType::Path => "path"@,
        DataFieldType::Resource => "resource"@,
        DataFieldType::Query => "query"@,
        DataFieldType::Value => "value"@,
        DataFieldType::Verified => "verified"@,
        DataFieldType::Error => "error"@,
        DataFieldType::ErrorMessage => "error_message"@,
        DataFieldType::ErrorCode => "error_code"@,
        DataFieldType::ErrorSource => "error_source"@,
        DataFieldType::Update => "update"@,
        DataFieldType::UpdatedFields => "updated_fields"@,
        DataFieldType::Delete => "delete"@,
        DataFieldType::Create => "create"@,
        DataFieldType::Search => "search"@,
        DataFieldType::Fetch => "fetch"@,
        DataFieldType::Login => "login"@,
        DataFieldType::Logout => "logout"@,
        DataFieldType::Status => "status"@,
        DataFieldType::Acknowledgement => "acknowledgement"@,
        DataFieldType::Data => "data"@,
        DataFieldType::CreateStore => "create_store"@,
        DataFieldType::StoreIDList => "store_i_d_list"@,
        DataFieldType::ParentStoreId => "parent_store_id"@,
        DataFieldType::PrevStoreID => "prev_store_i_d"@,
        DataFieldType::PortID => "port_i_d"@,
    }
}

impl DataFieldType {
    /// The name the key is written with in messages.
    pub fn name(&self) -> (res: &'static str)
        ensures
            res@ == field_name(*self),
    {
        match self {
            DataFieldType::ErrorType => "error_type",
            DataFieldType::InitError => "init_error",
            DataFieldType::NativeAppConnectionError => "native_app_connection_error",
            DataFieldType::CanSign => "can_sign",
            DataFieldType::CanEncrypt => "can_encrypt",
            DataFieldType::Keys => "keys",
            DataFieldType::KeyHasSecret => "key_has_secret",
            DataFieldType::KeyID => "key_i_d",
            DataFieldType::KeyFingerprint => "key_fingerprint",
            DataFieldType::KeyUserID => "key_user_i_d",
            DataFieldType::KeyUsable => "key_usable",
            DataFieldType::KeyUsername => "key_username",
            DataFieldType::HomeDir => "home_dir",
            DataFieldType::IsRepo => "is_repo",
            DataFieldType::SubStore => "sub_store",
            DataFieldType::IsDefault => "is_default",
            DataFieldType::DefaultStoreID => "default_store_i_d",
            DataFieldType::DefaultStoreAvailable => "default_store_available",
            DataFieldType::ContentScript => "content_script",
            DataFieldType::Request => "request",
            DataFieldType::SigningKey => "signing_key",
            DataFieldType::StoreDir => "store_dir",
            DataFieldType::StoreID => "store_i_d",
            DataFieldType::StorePath => "store_path",
            DataFieldType::ResourceID => "resource_i_d",
            DataFieldType::UserID => "user_i_d",
            DataFieldType::Username => "username",
            DataFieldType::Passphrase => "passphrase",
            DataFieldType::Password => "password",
            DataFieldType::Note => "note",
            DataFieldType::Recipient => "recipient",
            DataFieldType::ValidSignerList => "valid_signer_list",
            DataFieldType::RepoSigningKey => "repo_signing_key",
            DataFieldType::CustomField => "custom_field",
            DataFieldType::Domain => "domain",
            DataFieldType::Path => "path",
            DataFieldType::Resource => "resource",
            DataFieldType::Query => "query",
            DataFieldType::Value => "value",
            DataFieldType::Verified => "verified",
            DataFieldType::Error => "error",
            DataFieldType::ErrorMessage => "error_message",
            DataFieldType::ErrorCode => "error_code",
            DataFieldType::ErrorSource => "error_source",
            DataFieldType::Update => "update",
            DataFieldType::UpdatedFields => "updated_fields",
            DataFieldType::Delete => "delete",
            DataFieldType::Create => "create",
            DataFieldType::Search => "search",
            DataFieldType::Fetch => "fetch",
            DataFieldType::Login => "login",
            DataFieldType::Logout => "logout",
            DataFieldType::Status => "status",
            DataFieldType::Acknowledgement => "acknowledgement",
            DataFieldType::Data => "data",
            DataFieldType::CreateStore => "create_store",
            DataFieldType::StoreIDList => "store_i_d_list",
            DataFieldType::ParentStoreId => "parent_store_id",
            DataFieldType::PrevStoreID => "prev_store_i_d",
            DataFieldType::PortID => "port_i_d",
        }
    }

    /// A copy of the key.
    pub fn copy(&self) -> (res: DataFieldType)
        ensures
            res == *self,
    {
        match self {
            DataFieldType::ErrorType => DataFieldType::ErrorType,
            DataFieldType::InitError => DataFieldType::InitError,
            DataFieldType::NativeAppConnectionError => DataFieldType::NativeAppConnectionError,
            DataFieldType::CanSign => DataFieldType::CanSign,
            DataFieldType::CanEncrypt => DataFieldType::CanEncrypt,
            DataFieldType::Keys => DataFieldType::Keys,
            DataFieldType::KeyHasSecret => DataFieldType::KeyHasSecret,
            DataFieldType::KeyID => DataFieldType::KeyID,
            DataFieldType::KeyFingerprint => DataFieldType::KeyFingerprint,
            DataFieldType::KeyUserID => DataFieldType::KeyUserID,
            DataFieldType::KeyUsable => DataFieldType::KeyUsable,
            DataFieldType::KeyUsername => DataFieldType::KeyUsername,
            DataFieldType::HomeDir => DataFieldType::HomeDir,
            DataFieldType::IsRepo => DataFieldType::IsRepo,
            DataFieldType::SubStore => DataFieldType::SubStore,
            DataFieldType::IsDefault => DataFieldType::IsDefault,
            DataFieldType::DefaultStoreID => DataFieldType::DefaultStoreID,
            DataFieldType::DefaultStoreAvailable => DataFieldType::DefaultStoreAvailable,
            DataFieldType::ContentScript => DataFieldType::ContentScript,
            DataFieldType::Request => DataFieldType::Request,
            DataFieldType::SigningKey => DataFieldType::SigningKey,
            DataFieldType::StoreDir => DataFieldType::StoreDir,
            DataFieldType::StoreID => DataFieldType::StoreID,
            DataFieldType::StorePath => DataFieldType::StorePath,
            DataFieldType::ResourceID => DataFieldType::ResourceID,
            DataFieldType::UserID => DataFieldType::UserID,
            DataFieldType::Username => DataFieldType::Username,
            DataFieldType::Passphrase => DataFieldType::Passphrase,
            DataFieldType::Password => DataFieldType::Password,
            DataFieldType::Note => DataFieldType::Note,
            DataFieldType::Recipient => DataFieldType::Recipient,
            DataFieldType::ValidSignerList => DataFieldType::ValidSignerList,
            DataFieldType::RepoSigningKey => DataFieldType::RepoSigningKey,
            DataFieldType::CustomField => DataFieldType::CustomField,
            DataFieldType::Domain => DataFieldType::Domain,
            DataFieldType::Path => DataFieldType::Path,
            DataFieldType::Resource => DataFieldType::Resource,
            DataFieldType::Query => DataFieldType::Query,
            DataFieldType::Value => DataFieldType::Value,
            DataFieldType::Verified => DataFieldType::Verified,
            DataFieldType::Error => DataFieldType::Error,
            DataFieldType::ErrorMessage => DataFieldType::ErrorMessage,
            DataFieldType::ErrorCode => DataFieldType::ErrorCode,
            DataFieldType::ErrorSource => DataFieldType::ErrorSource,
            DataFieldType::Update => DataFieldType::Update,
            DataFieldType::UpdatedFields => DataFieldType::UpdatedFields,
            DataFieldType::Delete => DataFieldType::Delete,
            DataFieldType::Create => DataFieldType::Create,
            DataFieldType::Search => DataFieldType::Search,
            DataFieldType::Fetch => DataFieldType::Fetch,
            DataFieldType::Login => DataFieldType::Login,
            DataFieldType::Logout => DataFieldType::Logout,
            DataFieldType::Status => DataFieldType::Status,
            DataFieldType::Acknowledgement => DataFieldType::Acknowledgement,
            DataFieldType::Data => DataFieldType::Data,
            DataFieldType::CreateStore => DataFieldType::CreateStore,
            DataFieldType::StoreIDList => DataFieldType::StoreIDList,
            DataFieldType::ParentStoreId => DataFieldType::ParentStoreId,
            DataFieldType::PrevStoreID => DataFieldType::PrevStoreID,
            DataFieldType::PortID => DataFieldType::PortID,
        }
    }
}

/// A detail map: values keyed by detail keys, in order. Looking a key up finds its first
/// entry.
pub type Detail = Vec<(DataFieldType, JsonValue)>;

/// The value of the first entry of `d` with key `k`.
pub open spec fn detail_lookup(d: Seq<(DataFieldType, JsonValue)>, k: DataFieldType) -> Option<
    JsonValue,
>
    decreases d.len(),
{
    if d.len() == 0 {
        None
    } else if d[0].0 == k {
        Some(d[0].1)
    } else {
        detail_lookup(d.drop_first(), k)
    }
}

/// The position of the first entry of `d` with key `k`, if any.
pub fn detail_position(d: &Detail, k: &DataFieldType) -> (res: Option<usize>)
    ensures
        match res {
            Some(i) => i < d@.len() && d@[i as int].0 == *k && detail_lookup(d@, *k) == Some(
                d@[i as int].1,
            ) && forall|j: int| 0 <= j < i ==> d@[j].0 != *k,
            None => detail_lookup(d@, *k) is None,
        },
{
    let mut i: usize = 0;
    assert(d@.skip(0) =~= d@);
    while i < d.len()
        invariant
            i <= d@.len(),
            detail_lookup(d@, *k) == detail_lookup(d@.skip(i as int), *k),
            forall|j: int| 0 <= j < i ==> d@[j].0 != *k,
        decreases d@.len() - i,
    {
        assert(d@.skip(i as int).drop_first() =~= d@.skip(i + 1));
        if d[i].0 == *k {
            return Some(i);
        }
        i = i + 1;
    }
    None
}

/// The content of a detail map: keys with the contents of their values.
pub open spec fn detail_model(d: Seq<(DataFieldType, JsonValue)>) -> Seq<(DataFieldType, JsonModel)>
    decreases d.len(),
{
    if d.len() == 0 {
        Seq::empty()
    } else {
        detail_model(d.drop_last()).push((d.last().0, d.last().1@))
    }
}

/// A copy of a detail map.
pub fn copy_detail(d: &Detail) -> (res: Detail)
    ensures
        detail_model(res@) == detail_model(d@),
        res@.len() == d@.len(),
{
    let mut res: Detail = Vec::new();
    let mut i: usize = 0;
    while i < d.len()
        invariant
            i <= d@.len(),
            res@.len() == i,
            detail_model(res@) == detail_model(d@.subrange(0, i as int)),
        decreases d@.len() - i,
    {
        let (k, v) = &d[i];
        let ghost prev = res@;
        res.push((k.copy(), v.copy()));
        i = i + 1;
        assert(res@.drop_last() =~= prev);
        assert(d@.subrange(0, i as int).drop_last() =~= d@.subrange(0, i - 1));
    }
    assert(d@.subrange(0, i as int) =~= d@);
    res
}

/// What a session event is about.
pub enum SessionEventType {
    Create,
    NativeAppConnectionError,
    Update,
    Refreshed,
    Delete,
    CreationFailed,
    Login,
    Logout,
    LogoutError,
    LoginError,
    Search,
    Init(Detail),
    Error,
    CreateStore,
    StoreCreated(Detail, String),
    StoreCreationFailed(Detail, String),
    StoreDeleted(Detail, String),
    StoreDeletionFailed(Detail, String),
}

/// Which connected ports a session event is sent to.
pub enum NotificationTarget {
    /// Every connected port.
    All,
    /// The ports that listen to the store.
    Store { store_id: String },
    /// The port with the given name.
    Port { port_id: String },
    /// The ports with the given names.
    Ports { port_ids: Vec<String> },
    /// The ports with the given names and those that listen to the store.
    StoreAndPorts { store_id: String, port_ids: Vec<String> },
    /// No port.
    Nobody,
}

/// A change of the session state, told to the popups and content scripts.
pub struct SessionEvent {
    pub data: Option<Detail>,
    pub event_type: SessionEventType,
    pub meta: Option<JsonValue>,
    pub resource: Option<Vec<Resource>>,
    pub is_global: bool,
    pub acknowledgement: Option<String>,
    pub store_id_index: Option<String>,
    pub notification_target: NotificationTarget,
}

/// A session event sent as a request.
pub struct SessionEventWrapper {
    pub session_event: SessionEvent,
}

/// Request headers: names and values, in order.
pub type Header = Vec<(String, String)>;

/// A copy of a header.
pub fn copy_header(h: &Header) -> (res: Header)
    ensures
        res@ == h@,
{
    let mut res: Header = Vec::new();
    let mut i: usize = 0;
    while i < h.len()
        invariant
            i <= h@.len(),
            res@ == h@.subrange(0, i as int),
        decreases h@.len() - i,
    {
        let (name, value) = &h[i];
        res.push((name.clone(), value.clone()));
        i = i + 1;
        assert(res@ =~= h@.subrange(0, i as int));
    }
    assert(res@ =~= h@);
    res
}

/// A copy of an optional header.
pub fn copy_header_opt(h: &Option<Header>) -> (res: Option<Header>)
    ensures
        res is Some <==> h is Some,
        res is Some ==> res->0@ == h->0@,
{
    match h {
        Some(h) => Some(copy_header(h)),
        None => None,
    }
}

/// The acknowledgement that a new request carries: the given one, or else a fresh one.
pub open spec fn fresh_or_given(given: Option<String>, res: Option<String>) -> bool {
    &&& res is Some
    &&& given is Some ==> res == given
    &&& given is None ==> is_acknowledgement(res->0@)
}

/// The given acknowledgement, or a fresh random one.
fn acknowledgement_or_fresh(given: Option<String>) -> (res: Option<String>)
    ensures
        fresh_or_given(given, res),
{
    if given.is_some() {
        given
    } else {
        Some(create_request_acknowledgement())
    }
}

pub struct GetRequest {
    pub id: String,
    pub store_id: Option<String>,
    pub resource: Resource,
    pub acknowledgement: Option<String>,
    pub header: Option<Header>,
}

pub struct EditRequest {
    pub id: String,
    pub store_id: Option<String>,
    pub resource: Resource,
    pub domain: Option<String>,
    pub value: Detail,
    pub acknowledgement: Option<String>,
    pub header: Option<Header>,
}

pub struct DeleteRequest {
    pub id: String,
    pub store_id: Option<String>,
    pub resource: Resource,
    pub acknowledgement: Option<String>,
    pub header: Option<Header>,
}

pub struct SearchRequest {
    pub query: Option<String>,
    pub resource: Resource,
    pub store_id: Option<String>,
    pub acknowledgement: Option<String>,
    pub header: Option<Header>,
}

pub struct FetchRequest {
    pub store_id: Option<String>,
    pub path: Option<String>,
    pub resource: Resource,
    pub acknowledgement: Option<String>,
    pub header: Option<Header>,
}

pub struct LoginRequest {
    pub store_id: Option<String>,
    pub prev_store_id: Option<String>,
    pub is_default: bool,
    pub acknowledgement: Option<String>,
    pub header: Option<Header>,
}

pub struct LogoutRequest {
    pub acknowledgement: Option<String>,
    pub store_id: Option<String>,
    pub user_id: Option<String>,
    pub header: Option<Header>,
}

pub struct InitRequest {
    pub config: Vec<(DataFieldType, String)>,
    pub acknowledgement: Option<String>,
    pub header: Option<Header>,
    pub store_id: Option<String>,
}

pub struct CreateRequest {
    pub username: Option<String>,
    pub resource: Resource,
    pub store_id: Option<String>,
    pub note: Option<String>,
    pub custom_fields: Option<Vec<(String, JsonValue)>>,
    pub domain: Option<String>,
    pub password: Option<String>,
    pub acknowledgement: Option<String>,
    pub header: Option<Header>,
}

pub struct CreateStoreRequest {
    pub parent_store: Option<String>,
    pub store_name: String,
    pub encryption_keys: Vec<String>,
    pub valid_signing_keys: Option<Vec<String>>,
    pub repo_signing_key: Option<String>,
    pub is_repo: bool,
    pub acknowledgement: Option<String>,
    pub header: Option<Header>,
}

pub struct DeleteStoreRequset {
    pub store_id: String,
    pub acknowledgement: Option<String>,
    pub force: bool,
    pub header: Option<Header>,
}

impl CreateStoreRequest {
    /// The parent store under which the new store is made.
    pub fn get_store_path(&self) -> (res: Option<String>)
        ensures
            res == self.parent_store,
    {
        self.parent_store.clone()
    }

    /// The name of the new store.
    pub fn get_store_name(&self) -> (res: String)
        ensures
            res == self.store_name,
    {
        self.store_name.clone()
    }

    /// The parent store under which the new store is made.
    pub fn get_store_dir(&self) -> (res: Option<String>)
        ensures
            res == self.parent_store,
    {
        self.parent_store.clone()
    }
}

/// Access to what every request carries: its acknowledgement, its header and the store
/// it is for.
pub trait RequestEnumTrait: Sized {
    spec fn spec_acknowledgement(&self) -> Option<String>;

    spec fn spec_header(&self) -> Option<Header>;

    spec fn spec_store_id(&self) -> Option<String>;

    /// The request with its header replaced.
    spec fn spec_with_header(&self, header: Header) -> Self;

    /// The request with its acknowledgement replaced.
    spec fn spec_with_acknowledgement(&self, acknowledgement: String) -> Self;

    fn get_acknowledgement(&self) -> (res: Option<String>)
        ensures
            res == self.spec_acknowledgement(),
    ;

    fn get_header(&self) -> (res: Option<Header>)
        ensures
            res is Some <==> self.spec_header() is Some,
            res is Some ==> res->0@ == self.spec_header()->0@,
    ;

    fn set_header(&mut self, header: Header)
        ensures
            *final(self) == old(self).spec_with_header(header),
    ;

    fn set_acknowledgement(&mut self, acknowledgement: String)
        ensures
            *final(self) == old(self).spec_with_acknowledgement(acknowledgement),
    ;

    fn get_store_id(&self) -> (res: Option<String>)
        ensures
            res == self.spec_store_id(),
    ;
}

impl RequestEnumTrait for GetRequest {
    open spec fn spec_acknowledgement(&self) -> Option<String> {
        self.acknowledgement
    }

    open spec fn spec_header(&self) -> Option<Header> {
        self.header
    }

    open spec fn spec_store_id(&self) -> Option<String> {
        self.store_id
    }

    open spec fn spec_with_header(&self, header: Header) -> Self {
        GetRequest { header: Some(header), ..*self }
    }

    open spec fn spec_with_acknowledgement(&self, acknowledgement: String) -> Self {
        GetRequest { acknowledgement: Some(acknowledgement), ..*self }
    }

    fn get_acknowledgement(&self) -> (res: Option<String>) {
        self.acknowledgement.clone()
    }

    fn get_header(&self) -> (res: Option<Header>) {
        copy_header_opt(&self.header)
    }

    fn set_header(&mut self, header: Header) {
        self.header = Some(header);
    }

    fn set_acknowledgement(&mut self, acknowledgement: String) {
        self.acknowledgement = Some(acknowledgement);
    }

    fn get_store_id(&self) -> (res: Option<String>) {
        self.store_id.clone()
    }
}

impl RequestEnumTrait for SearchRequest {
    open spec fn spec_acknowledgement(&self) -> Option<String> {
        self.acknowledgement
    }

    open spec fn spec_header(&self) -> Option<Header> {
        self.header
    }

    open spec fn spec_store_id(&self) -> Option<String> {
        self.store_id
    }

    open spec fn spec_with_header(&self, header: Header) -> Self {
        SearchRequest { header: Some(header), ..*self }
    }

    open spec fn spec_with_acknowledgement(&self, acknowledgement: String) -> Self {
        SearchRequest { acknowledgement: Some(acknowledgement), ..*self }
    }

    fn get_acknowledgement(&self) -> (res: Option<String>) {
        self.acknowledgement.clone()
    }

    fn get_header(&self) -> (res: Option<Header>) {
        copy_header_opt(&self.header)
    }

    fn set_header(&mut self, header: Header) {
        self.header = Some(header);
    }

    fn set_acknowledgement(&mut self, acknowledgement: String) {
        self.acknowledgement = Some(acknowledgement);
    }

    fn get_store_id(&self) -> (res: Option<String>) {
        self.store_id.clone()
    }
}

impl RequestEnumTrait for FetchRequest {
    open spec fn spec_acknowledgement(&self) -> Option<String> {
        self.acknowledgement
    }

    open spec fn spec_header(&self) -> Option<Header> {
        self.header
    }

    open spec fn spec_store_id(&self) -> Option<String> {
        self.store_id
    }

    open spec fn spec_with_header(&self, header: Header) -> Self {
        FetchRequest { header: Some(header), ..*self }
    }

    open spec fn spec_with_acknowledgement(&self, acknowledgement: String) -> Self {
        FetchRequest { acknowledgement: Some(acknowledgement), ..*self }
    }

    fn get_acknowledgement(&self) -> (res: Option<String>) {
        self.acknowledgement.clone()
    }

    fn get_header(&self) -> (res: Option<Header>) {
        copy_header_opt(&self.header)
    }

    fn set_header(&mut self, header: Header) {
        self.header = Some(header);
    }

    fn set_acknowledgement(&mut self, acknowledgement: String) {
        self.acknowledgement = Some(acknowledgement);
    }

    fn get_store_id(&self) -> (res: Option<String>) {
        self.store_id.clone()
    }
}

impl RequestEnumTrait for LoginRequest {
    open spec fn spec_acknowledgement(&self) -> Option<String> {
        self.acknowledgement
    }

    open spec fn spec_header(&self) -> Option<Header> {
        self.header
    }

    open spec fn spec_store_id(&self) -> Option<String> {
        self.store_id
    }

    open spec fn spec_with_header(&self, header: Header) -> Self {
        LoginRequest { header: Some(header), ..*self }
    }

    open spec fn spec_with_acknowledgement(&self, acknowledgement: String) -> Self {
        LoginRequest { acknowledgement: Some(acknowledgement), ..*self }
    }

    fn get_acknowledgement(&self) -> (res: Option<String>) {
        self.acknowledgement.clone()
    }

    fn get_header(&self) -> (res: Option<Header>) {
        copy_header_opt(&self.header)
    }

    fn set_header(&mut self, header: Header) {
        self.header = Some(header);
    }

    fn set_acknowledgement(&mut self, acknowledgement: String) {
        self.acknowledgement = Some(acknowledgement);
    }

    fn get_store_id(&self) -> (res: Option<String>) {
        self.store_id.clone()
    }
}

impl RequestEnumTrait for LogoutRequest {
    open spec fn spec_acknowledgement(&self) -> Option<String> {
        self.acknowledgement
    }

    open spec fn spec_header(&self) -> Option<Header> {
        self.header
    }

    open spec fn spec_store_id(&self) -> Option<String> {
        self.store_id
    }

    open spec fn spec_with_header(&self, header: Header) -> Self {
        LogoutRequest { header: Some(header), ..*self }
    }

    open spec fn spec_with_acknowledgement(&self, acknowledgement: String) -> Self {
        LogoutRequest { acknowledgement: Some(acknowledgement), ..*self }
    }

    fn get_acknowledgement(&self) -> (res: Option<String>) {
        self.acknowledgement.clone()
    }

    fn get_header(&self) -> (res: Option<Header>) {
        copy_header_opt(&self.header)
    }

    fn set_header(&mut self, header: Header) {
        self.header = Some(header);
    }

    fn set_acknowledgement(&mut self, acknowledgement: String) {
        self.acknowledgement = Some(acknowledgement);
    }

    fn get_store_id(&self) -> (res: Option<String>) {
        self.store_id.clone()
    }
}

impl RequestEnumTrait for InitRequest {
    open spec fn spec_acknowledgement(&self) -> Option<String> {
        self.acknowledgement
    }

    open spec fn spec_header(&self) -> Option<Header> {
        self.header
    }

    open spec fn spec_store_id(&self) -> Option<String> {
        self.store_id
    }

    open spec fn spec_with_header(&self, header: Header) -> Self {
        InitRequest { header: Some(header), ..*self }
    }

    open spec fn spec_with_acknowledgement(&self, acknowledgement: String) -> Self {
        InitRequest { acknowledgement: Some(acknowledgement), ..*self }
    }

    fn get_acknowledgement(&self) -> (res: Option<String>) {
        self.acknowledgement.clone()
    }

    fn get_header(&self) -> (res: Option<Header>) {
        copy_header_opt(&self.header)
    }

    fn set_header(&mut self, header: Header) {
        self.header = Some(header);
    }

    fn set_acknowledgement(&mut self, acknowledgement: String) {
        self.acknowledgement = Some(acknowledgement);
    }

    fn get_store_id(&self) -> (res: Option<String>) {
        self.store_id.clone()
    }
}

impl RequestEnumTrait for CreateRequest {
    open spec fn spec_acknowledgement(&self) -> Option<String> {
        self.acknowledgement
    }

    open spec fn spec_header(&self) -> Option<Header> {
        self.header
    }

    open spec fn spec_store_id(&self) -> Option<String> {
        self.store_id
    }

    open spec fn spec_with_header(&self, header: Header) -> Self {
        CreateRequest { header: Some(header), ..*self }
    }

    open spec fn spec_with_acknowledgement(&self, acknowledgement: String) -> Self {
        CreateRequest { acknowledgement: Some(acknowledgement), ..*self }
    }

    fn get_acknowledgement(&self) -> (res: Option<String>) {
        self.acknowledgement.clone()
    }

    fn get_header(&self) -> (res: Option<Header>) {
        copy_header_opt(&self.header)
    }

    fn set_header(&mut self, header: Header) {
        self.header = Some(header);
    }

    fn set_acknowledgement(&mut self, acknowledgement: String) {
        self.acknowledgement = Some(acknowledgement);
    }

    fn get_store_id(&self) -> (res: Option<String>) {
        self.store_id.clone()
    }
}

impl RequestEnumTrait for DeleteRequest {
    open spec fn spec_acknowledgement(&self) -> Option<String> {
        self.acknowledgement
    }

    open spec fn spec_header(&self) -> Option<Header> {
        self.header
    }

    open spec fn spec_store_id(&self) -> Option<String> {
        self.store_id
    }

    open spec fn spec_with_header(&self, header: Header) -> Self {
        DeleteRequest { header: Some(header), ..*self }
    }

    open spec fn spec_with_acknowledgement(&self, acknowledgement: String) -> Self {
        DeleteRequest { acknowledgement: Some(acknowledgement), ..*self }
    }

    fn get_acknowledgement(&self) -> (res: Option<String>) {
        self.acknowledgement.clone()
    }

    fn get_header(&self) -> (res: Option<Header>) {
        copy_header_opt(&self.header)
    }

    fn set_header(&mut self, header: Header) {
        self.header = Some(header);
    }

    fn set_acknowledgement(&mut self, acknowledgement: String) {
        self.acknowledgement = Some(acknowledgement);
    }

    fn get_store_id(&self) -> (res: Option<String>) {
        self.store_id.clone()
    }
}

impl RequestEnumTrait for EditRequest {
    open spec fn spec_acknowledgement(&self) -> Option<String> {
        self.acknowledgement
    }

    open spec fn spec_header(&self) -> Option<Header> {
        self.header
    }

    open spec fn spec_store_id(&self) -> Option<String> {
        self.store_id
    }

    open spec fn spec_with_header(&self, header: Header) -> Self {
        EditRequest { header: Some(header), ..*self }
    }

    open spec fn spec_with_acknowledgement(&self, acknowledgement: String) -> Self {
        EditRequest { acknowledgement: Some(acknowledgement), ..*self }
    }

    fn get_acknowledgement(&self) -> (res: Option<String>) {
        self.acknowledgement.clone()
    }

    fn get_header(&self) -> (res: Option<Header>) {
        copy_header_opt(&self.header)
    }

    fn set_header(&mut self, header: Header) {
        self.header = Some(header);
    }

    fn set_acknowledgement(&mut self, acknowledgement: String) {
        self.acknowledgement = Some(acknowledgement);
    }

    fn get_store_id(&self) -> (res: Option<String>) {
        self.store_id.clone()
    }
}

impl RequestEnumTrait for CreateStoreRequest {
    open spec fn spec_acknowledgement(&self) -> Option<String> {
        self.acknowledgement
    }

    open spec fn spec_header(&self) -> Option<Header> {
        self.header
    }

    open spec fn spec_store_id(&self) -> Option<String> {
        Some(self.store_name)
    }

    open spec fn spec_with_header(&self, header: Header) -> Self {
        CreateStoreRequest { header: Some(header), ..*self }
    }

    open spec fn spec_with_acknowledgement(&self, acknowledgement: String) -> Self {
        CreateStoreRequest { acknowledgement: Some(acknowledgement), ..*self }
    }

    fn get_acknowledgement(&self) -> (res: Option<String>) {
        self.acknowledgement.clone()
    }

    fn get_header(&self) -> (res: Option<Header>) {
        copy_header_opt(&self.header)
    }

    fn set_header(&mut self, header: Header) {
        self.header = Some(header);
    }

    fn set_acknowledgement(&mut self, acknowledgement: String) {
        self.acknowledgement = Some(acknowledgement);
    }

    fn get_store_id(&self) -> (res: Option<String>) {
        Some(self.store_name.clone())
    }
}

impl RequestEnumTrait for DeleteStoreRequset {
    open spec fn spec_acknowledgement(&self) -> Option<String> {
        self.acknowledgement
    }

    open spec fn spec_header(&self) -> Option<Header> {
        self.header
    }

    open spec fn spec_store_id(&self) -> Option<String> {
        Some(self.store_id)
    }

    open spec fn spec_with_header(&self, header: Header) -> Self {
        DeleteStoreRequset { header: Some(header), ..*self }
    }

    open spec fn spec_with_acknowledgement(&self, acknowledgement: String) -> Self {
        DeleteStoreRequset { acknowledgement: Some(acknowledgement), ..*self }
    }

    fn get_acknowledgement(&self) -> (res: Option<String>) {
        self.acknowledgement.clone()
    }

    fn get_header(&self) -> (res: Option<Header>) {
        copy_header_opt(&self.header)
    }

    fn set_header(&mut self, header: Header) {
        self.header = Some(header);
    }

    fn set_acknowledgement(&mut self, acknowledgement: String) {
        self.acknowledgement = Some(acknowledgement);
    }

    fn get_store_id(&self) -> (res: Option<String>) {
        Some(self.store_id.clone())
    }
}

impl RequestEnumTrait for SessionEventWrapper {
    open spec fn spec_acknowledgement(&self) -> Option<String> {
        self.session_event.acknowledgement
    }

    open spec fn spec_header(&self) -> Option<Header> {
        None
    }

    open spec fn spec_store_id(&self) -> Option<String> {
        self.session_event.store_id_index
    }

    open spec fn spec_with_header(&self, header: Header) -> Self {
        *self
    }

    open spec fn spec_with_acknowledgement(&self, acknowledgement: String) -> Self {
        SessionEventWrapper {
            session_event: SessionEvent { acknowledgement: Some(acknowledgement), ..self.session_event },
        }
    }

    fn get_acknowledgement(&self) -> (res: Option<String>) {
        self.session_event.acknowledgement.clone()
    }

    fn get_header(&self) -> (res: Option<Header>) {
        None
    }

    fn set_header(&mut self, header: Header) {
    }

    fn set_acknowledgement(&mut self, acknowledgement: String) {
        self.session_event.acknowledgement = Some(acknowledgement);
    }

    fn get_store_id(&self) -> (res: Option<String>) {
        self.session_event.store_id_index.clone()
    }
}

/// A message that asks for something, tagged with its kind.
pub enum RequestEnum {
    Get(GetRequest),
    Delete(DeleteRequest),
    Edit(EditRequest),
    Search(SearchRequest),
    Fetch(FetchRequest),
    Login(LoginRequest),
    Logout(LogoutRequest),
    Init(InitRequest),
    Create(CreateRequest),
    CreateStore(CreateStoreRequest),
    DeleteStore(DeleteStoreRequset),
    SessionEventRequest(SessionEventWrapper),
}

/// The kind of a request, as its type tag names it.
pub open spec fn request_type_name(r: RequestEnum) -> Seq<char> {
    match r {
        RequestEnum::Get(_) => "get"@,
        RequestEnum::Delete(_) => "delete"@,
        RequestEnum::Edit(_) => "edit"@,
        RequestEnum::Search(_) => "search"@,
        RequestEnum::Fetch(_) => "fetch"@,
        RequestEnum::Login(_) => "login"@,
        RequestEnum::Logout(_) => "logout"@,
        RequestEnum::Init(_) => "init"@,
        RequestEnum::Create(_) => "create"@,
        RequestEnum::CreateStore(_) => "create_store"@,
        RequestEnum::DeleteStore(_) => "delete_store"@,
        RequestEnum::SessionEventRequest(_) => "session_event_request"@,
    }
}

impl RequestEnumTrait for RequestEnum {
    open spec fn spec_acknowledgement(&self) -> Option<String> {
        match self {
            RequestEnum::Get(r) => r.spec_acknowledgement(),
            RequestEnum::Delete(r) => r.spec_acknowledgement(),
            RequestEnum::Edit(r) => r.spec_acknowledgement(),
            RequestEnum::Search(r) => r.spec_acknowledgement(),
            RequestEnum::Fetch(r) => r.spec_acknowledgement(),
            RequestEnum::Login(r) => r.spec_acknowledgement(),
            RequestEnum::Logout(r) => r.spec_acknowledgement(),
            RequestEnum::Init(r) => r.spec_acknowledgement(),
            RequestEnum::Create(r) => r.spec_acknowledgement(),
            RequestEnum::CreateStore(r) => r.spec_acknowledgement(),
            RequestEnum::DeleteStore(r) => r.spec_acknowledgement(),
            RequestEnum::SessionEventRequest(r) => r.spec_acknowledgement(),
        }
    }

    open spec fn spec_header(&self) -> Option<Header> {
        match self {
            RequestEnum::Get(r) => r.spec_header(),
            RequestEnum::Delete(r) => r.spec_header(),
            RequestEnum::Edit(r) => r.spec_header(),
            RequestEnum::Search(r) => r.spec_header(),
            RequestEnum::Fetch(r) => r.spec_header(),
            RequestEnum::Login(r) => r.spec_header(),
            RequestEnum::Logout(r) => r.spec_header(),
            RequestEnum::Init(r) => r.spec_header(),
            RequestEnum::Create(r) => r.spec_header(),
            RequestEnum::CreateStore(r) => r.spec_header(),
            RequestEnum::DeleteStore(r) => r.spec_header(),
            RequestEnum::SessionEventRequest(r) => r.spec_header(),
        }
    }

    open spec fn spec_store_id(&self) -> Option<String> {
        match self {
            RequestEnum::Get(r) => r.spec_store_id(),
            RequestEnum::Delete(r) => r.spec_store_id(),
            RequestEnum::Edit(r) => r.spec_store_id(),
            RequestEnum::Search(r) => r.spec_store_id(),
            RequestEnum::Fetch(r) => r.spec_store_id(),
            RequestEnum::Login(r) => r.spec_store_id(),
            RequestEnum::Logout(r) => r.spec_store_id(),
            RequestEnum::Init(r) => r.spec_store_id(),
            RequestEnum::Create(r) => r.spec_store_id(),
            RequestEnum::CreateStore(r) => r.spec_store_id(),
            RequestEnum::DeleteStore(r) => r.spec_store_id(),
            RequestEnum::SessionEventRequest(r) => r.spec_store_id(),
        }
    }

    open spec fn spec_with_header(&self, header: Header) -> Self {
        match self {
            RequestEnum::Get(r) => RequestEnum::Get(r.spec_with_header(header)),
            RequestEnum::Delete(r) => RequestEnum::Delete(r.spec_with_header(header)),
            RequestEnum::Edit(r) => RequestEnum::Edit(r.spec_with_header(header)),
            RequestEnum::Search(r) => RequestEnum::Search(r.spec_with_header(header)),
            RequestEnum::Fetch(r) => RequestEnum::Fetch(r.spec_with_header(header)),
            RequestEnum::Login(r) => RequestEnum::Login(r.spec_with_header(header)),
            RequestEnum::Logout(r) => RequestEnum::Logout(r.spec_with_header(header)),
            RequestEnum::Init(r) => RequestEnum::Init(r.spec_with_header(header)),
            RequestEnum::Create(r) => RequestEnum::Create(r.spec_with_header(header)),
            RequestEnum::CreateStore(r) => RequestEnum::CreateStore(r.spec_with_header(header)),
            RequestEnum::DeleteStore(r) => RequestEnum::DeleteStore(r.spec_with_header(header)),
            RequestEnum::SessionEventRequest(r) => RequestEnum::SessionEventRequest(r.spec_with_header(header)),
        }
    }

    open spec fn spec_with_acknowledgement(&self, acknowledgement: String) -> Self {
        match self {
            RequestEnum::Get(r) => RequestEnum::Get(r.spec_with_acknowledgement(acknowledgement)),
            RequestEnum::Delete(r) => RequestEnum::Delete(r.spec_with_acknowledgement(acknowledgement)),
            RequestEnum::Edit(r) => RequestEnum::Edit(r.spec_with_acknowledgement(acknowledgement)),
            RequestEnum::Search(r) => RequestEnum::Search(r.spec_with_acknowledgement(acknowledgement)),
            RequestEnum::Fetch(r) => RequestEnum::Fetch(r.spec_with_acknowledgement(acknowledgement)),
            RequestEnum::Login(r) => RequestEnum::Login(r.spec_with_acknowledgement(acknowledgement)),
            RequestEnum::Logout(r) => RequestEnum::Logout(r.spec_with_acknowledgement(acknowledgement)),
            RequestEnum::Init(r) => RequestEnum::Init(r.spec_with_acknowledgement(acknowledgement)),
            RequestEnum::Create(r) => RequestEnum::Create(r.spec_with_acknowledgement(acknowledgement)),
            RequestEnum::CreateStore(r) => RequestEnum::CreateStore(r.spec_with_acknowledgement(acknowledgement)),
            RequestEnum::DeleteStore(r) => RequestEnum::DeleteStore(r.spec_with_acknowledgement(acknowledgement)),
            RequestEnum::SessionEventRequest(r) => RequestEnum::SessionEventRequest(r.spec_with_acknowledgement(acknowledgement)),
        }
    }

    fn get_acknowledgement(&self) -> (res: Option<String>) {
        match self {
            RequestEnum::Get(r) => r.get_acknowledgement(),
            RequestEnum::Delete(r) => r.get_acknowledgement(),
            RequestEnum::Edit(r) => r.get_acknowledgement(),
            RequestEnum::Search(r) => r.get_acknowledgement(),
            RequestEnum::Fetch(r) => r.get_acknowledgement(),
            RequestEnum::Login(r) => r.get_acknowledgement(),
            RequestEnum::Logout(r) => r.get_acknowledgement(),
            RequestEnum::Init(r) => r.get_acknowledgement(),
            RequestEnum::Create(r) => r.get_acknowledgement(),
            RequestEnum::CreateStore(r) => r.get_acknowledgement(),
            RequestEnum::DeleteStore(r) => r.get_acknowledgement(),
            RequestEnum::SessionEventRequest(r) => r.get_acknowledgement(),
        }
    }

    fn get_header(&self) -> (res: Option<Header>) {
        match self {
            RequestEnum::Get(r) => r.get_header(),
            RequestEnum::Delete(r) => r.get_header(),
            RequestEnum::Edit(r) => r.get_header(),
            RequestEnum::Search(r) => r.get_header(),
            RequestEnum::Fetch(r) => r.get_header(),
            RequestEnum::Login(r) => r.get_header(),
            RequestEnum::Logout(r) => r.get_header(),
            RequestEnum::Init(r) => r.get_header(),
            RequestEnum::Create(r) => r.get_header(),
            RequestEnum::CreateStore(r) => r.get_header(),
            RequestEnum::DeleteStore(r) => r.get_header(),
            RequestEnum::SessionEventRequest(r) => r.get_header(),
        }
    }

    fn set_header(&mut self, header: Header) {
        match self {
            RequestEnum::Get(r) => r.set_header(header),
            RequestEnum::Delete(r) => r.set_header(header),
            RequestEnum::Edit(r) => r.set_header(header),
            RequestEnum::Search(r) => r.set_header(header),
            RequestEnum::Fetch(r) => r.set_header(header),
            RequestEnum::Login(r) => r.set_header(header),
            RequestEnum::Logout(r) => r.set_header(header),
            RequestEnum::Init(r) => r.set_header(header),
            RequestEnum::Create(r) => r.set_header(header),
            RequestEnum::CreateStore(r) => r.set_header(header),
            RequestEnum::DeleteStore(r) => r.set_header(header),
            RequestEnum::SessionEventRequest(r) => r.set_header(header),
        }
    }

    fn set_acknowledgement(&mut self, acknowledgement: String) {
        match self {
            RequestEnum::Get(r) => r.set_acknowledgement(acknowledgement),
            RequestEnum::Delete(r) => r.set_acknowledgement(acknowledgement),
            RequestEnum::Edit(r) => r.set_acknowledgement(acknowledgement),
            RequestEnum::Search(r) => r.set_acknowledgement(acknowledgement),
            RequestEnum::Fetch(r) => r.set_acknowledgement(acknowledgement),
            RequestEnum::Login(r) => r.set_acknowledgement(acknowledgement),
            RequestEnum::Logout(r) => r.set_acknowledgement(acknowledgement),
            RequestEnum::Init(r) => r.set_acknowledgement(acknowledgement),
            RequestEnum::Create(r) => r.set_acknowledgement(acknowledgement),
            RequestEnum::CreateStore(r) => r.set_acknowledgement(acknowledgement),
            RequestEnum::DeleteStore(r) => r.set_acknowledgement(acknowledgement),
            RequestEnum::SessionEventRequest(r) => r.set_acknowledgement(acknowledgement),
        }
    }

    fn get_store_id(&self) -> (res: Option<String>) {
        match self {
            RequestEnum::Get(r) => r.get_store_id(),
            RequestEnum::Delete(r) => r.get_store_id(),
            RequestEnum::Edit(r) => r.get_store_id(),
            RequestEnum::Search(r) => r.get_store_id(),
            RequestEnum::Fetch(r) => r.get_store_id(),
            RequestEnum::Login(r) => r.get_store_id(),
            RequestEnum::Logout(r) => r.get_store_id(),
            RequestEnum::Init(r) => r.get_store_id(),
            RequestEnum::Create(r) => r.get_store_id(),
            RequestEnum::CreateStore(r) => r.get_store_id(),
            RequestEnum::DeleteStore(r) => r.get_store_id(),
            RequestEnum::SessionEventRequest(r) => r.get_store_id(),
        }
    }
}

impl RequestEnum {
    /// A request to read one resource. It carries `acknowledgement`, or a fresh one when
    /// none is given.
    pub fn create_get_request(
        id: String,
        resource: Resource,
        acknowledgement: Option<String>,
        header: Option<Header>,
        store_id: Option<String>,
    ) -> (res: RequestEnum)
        ensures
            res matches RequestEnum::Get(r) && r.id == id && r.resource == resource && r.header
                == header && r.store_id == store_id && fresh_or_given(acknowledgement, r.acknowledgement),
    {
        RequestEnum::Get(
            GetRequest {
                id,
                resource,
                acknowledgement: acknowledgement_or_fresh(acknowledgement),
                header,
                store_id,
            },
        )
    }

    /// A request to delete one resource. It carries `acknowledgement`, or a fresh one
    /// when none is given.
    pub fn create_delete_request(
        id: String,
        resource: Resource,
        acknowledgement: Option<String>,
        header: Option<Header>,
        store_id: Option<String>,
    ) -> (res: RequestEnum)
        ensures
            res matches RequestEnum::Delete(r) && r.id == id && r.resource == resource && r.header
                == header && r.store_id == store_id && fresh_or_given(acknowledgement, r.acknowledgement),
    {
        RequestEnum::Delete(
            DeleteRequest {
                id,
                resource,
                acknowledgement: acknowledgement_or_fresh(acknowledgement),
                header,
                store_id,
            },
        )
    }

    /// A request to create a resource. It carries `acknowledgement`, or a fresh one when
    /// none is given.
    pub fn create_create_request(
        store_id: Option<String>,
        username: Option<String>,
        domain: Option<String>,
        note: Option<String>,
        custom_fields: Option<Vec<(String, JsonValue)>>,
        resource: Resource,
        password: Option<String>,
        acknowledgement: Option<String>,
        header: Option<Header>,
    ) -> (res: RequestEnum)
        ensures
            res matches RequestEnum::Create(r) && r.store_id == store_id && r.username == username
                && r.domain == domain && r.note == note && r.custom_fields == custom_fields
                && r.resource == resource && r.password == password && r.header == header
                && fresh_or_given(acknowledgement, r.acknowledgement),
    {
        RequestEnum::Create(
            CreateRequest {
                store_id,
                username,
                domain,
                resource,
                note,
                custom_fields,
                password,
                acknowledgement: acknowledgement_or_fresh(acknowledgement),
                header,
            },
        )
    }

    /// A request to search a store. It carries `acknowledgement`, or a fresh one when
    /// none is given.
    pub fn create_search_request(
        query: Option<String>,
        resource: Resource,
        acknowledgement: Option<String>,
        header: Option<Header>,
        store_id: Option<String>,
    ) -> (res: RequestEnum)
        ensures
            res matches RequestEnum::Search(r) && r.query == query && r.resource == resource
                && r.header == header && r.store_id == store_id && fresh_or_given(
                acknowledgement,
                r.acknowledgement,
            ),
    {
        RequestEnum::Search(
            SearchRequest {
                store_id,
                query,
                resource,
                acknowledgement: acknowledgement_or_fresh(acknowledgement),
                header,
            },
        )
    }

    /// A request to fetch every entry of a store. It carries `acknowledgement`, or a fresh
    /// one when none is given.
    pub fn create_fetch_request(
        store_id: Option<String>,
        path: Option<String>,
        resource: Resource,
        acknowledgement: Option<String>,
        header: Option<Header>,
    ) -> (res: RequestEnum)
        ensures
            res matches RequestEnum::Fetch(r) && r.store_id == store_id && r.path == path
                && r.resource == resource && r.header == header && fresh_or_given(
                acknowledgement,
                r.acknowledgement,
            ),
    {
        RequestEnum::Fetch(
            FetchRequest {
                path,
                resource,
                store_id,
                acknowledgement: acknowledgement_or_fresh(acknowledgement),
                header,
            },
        )
    }

    /// A request to log in to a store, with no header. It carries `acknowledgement`, or a
    /// fresh one when none is given.
    pub fn create_login_request(
        acknowledgement: Option<String>,
        store_id: Option<String>,
        prev_store_id: Option<String>,
        is_default: bool,
    ) -> (res: RequestEnum)
        ensures
            res matches RequestEnum::Login(r) && r.store_id == store_id && r.prev_store_id
                == prev_store_id && r.is_default == is_default && r.header is None
                && fresh_or_given(acknowledgement, r.acknowledgement),
    {
        RequestEnum::Login(
            LoginRequest {
                is_default,
                store_id,
                prev_store_id,
                acknowledgement: acknowledgement_or_fresh(acknowledgement),
                header: None,
            },
        )
    }

    /// A request to log out of a store, or of every store when `store_id` is `None`. It
    /// carries `acknowledgement`, or a fresh one when none is given.
    pub fn create_logout_request(
        acknowledgement: Option<String>,
        header: Option<Header>,
        store_id: Option<String>,
        user_id: Option<String>,
    ) -> (res: RequestEnum)
        ensures
            res matches RequestEnum::Logout(r) && r.store_id == store_id && r.user_id == user_id
                && r.header == header && fresh_or_given(acknowledgement, r.acknowledgement),
    {
        RequestEnum::Logout(
            LogoutRequest {
                acknowledgement: acknowledgement_or_fresh(acknowledgement),
                store_id,
                user_id,
                header,
            },
        )
    }

    /// A request to edit one resource. It carries `acknowledgement`, or a fresh one when
    /// none is given.
    pub fn create_edit_request(
        id: String,
        resource: Resource,
        domain: Option<String>,
        value: Detail,
        acknowledgement: Option<String>,
        header: Option<Header>,
        store_id: Option<String>,
    ) -> (res: RequestEnum)
        ensures
            res matches RequestEnum::Edit(r) && r.id == id && r.resource == resource && r.domain
                == domain && r.value == value && r.header == header && r.store_id == store_id
                && fresh_or_given(acknowledgement, r.acknowledgement),
    {
        RequestEnum::Edit(
            EditRequest {
                id,
                resource,
                domain,
                store_id,
                value,
                acknowledgement: acknowledgement_or_fresh(acknowledgement),
                header,
            },
        )
    }

    /// A request that carries a session event. The other arguments are not used.
    pub fn create_session_event_request(
        acknowledgement: Option<String>,
        session_event: SessionEvent,
        store_id: Option<String>,
        header: Option<Header>,
    ) -> (res: RequestEnum)
        ensures
            res == RequestEnum::SessionEventRequest(SessionEventWrapper { session_event }),
    {
        RequestEnum::SessionEventRequest(SessionEventWrapper { session_event })
    }

    /// A request that starts a session, for no store. It carries `acknowledgement`, or a
    /// fresh one when none is given.
    pub fn create_init_request(
        config: Vec<(DataFieldType, String)>,
        acknowledgement: Option<String>,
        header: Option<Header>,
    ) -> (res: RequestEnum)
        ensures
            res matches RequestEnum::Init(r) && r.config == config && r.header == header
                && r.store_id is None && fresh_or_given(acknowledgement, r.acknowledgement),
    {
        RequestEnum::Init(
            InitRequest {
                config,
                acknowledgement: acknowledgement_or_fresh(acknowledgement),
                header,
                store_id: None,
            },
        )
    }

    /// A request to create a store. It carries `acknowledgement`, or a fresh one when none
    /// is given.
    pub fn create_create_store_request(
        parent_store: Option<String>,
        store_name: String,
        encryption_keys: Vec<String>,
        signing_keys: Option<Vec<String>>,
        is_repo: bool,
        repo_signing_key: Option<String>,
        acknowledgement: Option<String>,
        header: Option<Header>,
    ) -> (res: RequestEnum)
        ensures
            res matches RequestEnum::CreateStore(r) && r.parent_store == parent_store
                && r.store_name == store_name && r.encryption_keys == encryption_keys
                && r.valid_signing_keys == signing_keys && r.is_repo == is_repo
                && r.repo_signing_key == repo_signing_key && r.header == header
                && fresh_or_given(acknowledgement, r.acknowledgement),
    {
        RequestEnum::CreateStore(
            CreateStoreRequest {
                parent_store,
                store_name,
                encryption_keys,
                valid_signing_keys: signing_keys,
                is_repo,
                repo_signing_key,
                acknowledgement: acknowledgement_or_fresh(acknowledgement),
                header,
            },
        )
    }

    /// A request to delete a store. It carries `acknowledgement`, or a fresh one when none
    /// is given.
    pub fn create_delete_store_request(
        store_id: String,
        force: bool,
        acknowledgement: Option<String>,
        header: Option<Header>,
    ) -> (res: RequestEnum)
        ensures
            res matches RequestEnum::DeleteStore(r) && r.store_id == store_id && r.force == force
                && r.header == header && fresh_or_given(acknowledgement, r.acknowledgement),
    {
        RequestEnum::DeleteStore(
            DeleteStoreRequset {
                store_id,
                force,
                acknowledgement: acknowledgement_or_fresh(acknowledgement),
                header,
            },
        )
    }

    /// The kind of the request, as its type tag names it.
    pub fn get_type(&self) -> (res: &'static str)
        ensures
            res@ == request_type_name(*self),
    {
        match self {
            RequestEnum::Get(_) => "get",
            RequestEnum::Delete(_) => "delete",
            RequestEnum::Edit(_) => "edit",
            RequestEnum::Search(_) => "search",
            RequestEnum::Fetch(_) => "fetch",
            RequestEnum::Login(_) => "login",
            RequestEnum::Logout(_) => "logout",
            RequestEnum::Init(_) => "init",
            RequestEnum::Create(_) => "create",
            RequestEnum::CreateStore(_) => "create_store",
            RequestEnum::DeleteStore(_) => "delete_store",
            RequestEnum::SessionEventRequest(_) => "session_event_request",
        }
    }
}

/// What a search asks for.
#[allow(inconsistent_fields)]
pub enum Queryable {
    Password { path: Option<String>, username: String },
    Username { path: String },
}

} // verus!
