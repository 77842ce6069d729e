//! Responses that the native host and the service worker send back for requests.
use vstd::prelude::*;
use crate::json::{JsonMap, JsonModel, JsonValue};
use crate::request::{copy_detail, detail_model, DataFieldType, Detail, RequestEnum};
use crate::types::Resource;

verus! {

/// Whether a request was served.
#[derive(Clone, Debug, PartialEq, Eq, Structural)]
pub enum Status {
    Success,
    Failure,
    Error,
}

/// The name a status is written with in messages.
pub open spec fn status_name(s: Status) -> Seq<char> {
    match s {
        Status::Success => "success"@,
        Status::Failure => "failure"@,
        Status::Error => "error"@,
    }
}

impl Status {
    /// A copy of the status.
    pub fn copy(&self) -> (res: Status)
        ensures
            res == *self,
    {
        match self {
            Status::Success => Status::Success,
            Status::Failure => Status::Failure,
            Status::Error => Status::Error,
        }
    }

    /// The name the status is written with in messages.
    pub fn name(&self) -> (res: &'static str)
        ensures
            res@ == status_name(*self),
    {
        match self {
            Status::Success => "success",
            Status::Failure => "failure",
            Status::Error => "error",
        }
    }
}

/// Why a request failed.
#[derive(Clone, Debug, PartialEq, Eq, Structural)]
pub enum ErrorCode {
    NotAuthorized,
    NotFound,
    Unknown,
    NotSupported,
    Generic,
    LoginFailed,
    NativeAppConnectionError,
}

/// The number an error code is written as in messages.
pub open spec fn error_code_number(c: ErrorCode) -> u8 {
    match c {
        ErrorCode::NotAuthorized => 1,
        ErrorCode::NotFound => 2,
        ErrorCode::Unknown => 3,
        ErrorCode::NotSupported => 4,
        ErrorCode::Generic => 5,
        ErrorCode::LoginFailed => 6,
        ErrorCode::NativeAppConnectionError => 7,
    }
}

/// The decimal text of an error code's number.
pub open spec fn error_code_text(c: ErrorCode) -> Seq<char> {
    match c {
        ErrorCode::NotAuthorized => "1"@,
        ErrorCode::NotFound => "2"@,
        ErrorCode::Unknown => "3"@,
        ErrorCode::NotSupported => "4"@,
        ErrorCode::Generic => "5"@,
        ErrorCode::LoginFailed => "6"@,
        ErrorCode::NativeAppConnectionError => "7"@,
    }
}

impl ErrorCode {
    /// The number the code is written as in messages.
    pub fn code(&self) -> (res: u8)
        ensures
            res == error_code_number(*self),
    {
        match self {
            ErrorCode::NotAuthorized => 1,
            ErrorCode::NotFound => 2,
            ErrorCode::Unknown => 3,
            ErrorCode::NotSupported => 4,
            ErrorCode::Generic => 5,
            ErrorCode::LoginFailed => 6,
            ErrorCode::NativeAppConnectionError => 7,
        }
    }

    /// The code for a number, if the number is one.
    pub fn from_code(n: u8) -> (res: Option<ErrorCode>)
        ensures
            match res {
                Some(c) => error_code_number(c) == n,
                None => !(1 <= n <= 7),
            },
    {
        match n {
            1 => Some(ErrorCode::NotAuthorized),
            2 => Some(ErrorCode::NotFound),
            3 => Some(ErrorCode::Unknown),
            4 => Some(ErrorCode::NotSupported),
            5 => Some(ErrorCode::Generic),
            6 => Some(ErrorCode::LoginFailed),
            7 => Some(ErrorCode::NativeAppConnectionError),
            _ => None,
        }
    }

    /// The decimal text of the code's number.
    pub fn text(&self) -> (res: &'static str)
        ensures
            res@ == error_code_text(*self),
    {
        match self {
            ErrorCode::NotAuthorized => "1",
            ErrorCode::NotFound => "2",
            ErrorCode::Unknown => "3",
            ErrorCode::NotSupported => "4",
            ErrorCode::Generic => "5",
            ErrorCode::LoginFailed => "6",
            ErrorCode::NativeAppConnectionError => "7",
        }
    }

    /// A copy of the code.
    pub fn copy(&self) -> (res: ErrorCode)
        ensures
            res == *self,
    {
        match self {
            ErrorCode::NotAuthorized => ErrorCode::NotAuthorized,
            ErrorCode::NotFound => ErrorCode::NotFound,
            ErrorCode::Unknown => ErrorCode::Unknown,
            ErrorCode::NotSupported => ErrorCode::NotSupported,
            ErrorCode::Generic => ErrorCode::Generic,
            ErrorCode::LoginFailed => ErrorCode::LoginFailed,
            ErrorCode::NativeAppConnectionError => ErrorCode::NativeAppConnectionError,
        }
    }
}

pub struct GetResponse {
    pub acknowledgement: Option<String>,
    pub detail: Detail,
    pub status: Status,
    pub resource: Resource,
}

pub struct CreateResponse {
    pub acknowledgement: Option<String>,
    pub detail: Detail,
    pub store_id: String,
    pub status: Status,
    pub resource: Resource,
}

pub struct CreateStoreResponse {
    pub acknowledgement: Option<String>,
    pub detail: Detail,
    /// The directory of the store.
    pub store_path: String,
    pub store_id: String,
    pub status: Status,
}

pub struct DeleteStoreResponse {
    pub acknowledgement: Option<String>,
    pub store_id: String,
    pub status: Status,
    pub detail: Detail,
}

impl CreateStoreResponse {
    /// A response for a store; with no detail when none is given.
    pub fn new(
        store_id: String,
        store_path: String,
        status: Status,
        acknowledgement: Option<String>,
        detail: Option<Detail>,
    ) -> (res: CreateStoreResponse)
        ensures
            res.store_id == store_id,
            res.store_path == store_path,
            res.status == status,
            res.acknowledgement == acknowledgement,
            detail is Some ==> res.detail == detail->0,
            detail is None ==> res.detail@.len() == 0,
    {
        CreateStoreResponse {
            store_id,
            store_path,
            status,
            detail: match detail {
                Some(d) => d,
                None => Vec::new(),
            },
            acknowledgement,
        }
    }
}

/// One field change of an edited entry.
pub struct UpdateLog {
    pub field: DataFieldType,
    pub old: JsonValue,
    pub new: JsonValue,
}

pub struct EditResponse {
    pub instance_id: String,
    pub store_id: String,
    pub status: Status,
    pub resource: Resource,
    pub detail: Detail,
    pub acknowledgement: Option<String>,
    pub update_logs: Vec<UpdateLog>,
}

pub struct SearchResponse {
    pub store_id: String,
    pub acknowledgement: Option<String>,
    pub detail: Detail,
    pub status: Status,
    pub resource: Resource,
}

pub struct FetchResponse {
    pub acknowledgement: Option<String>,
    pub status: Status,
    pub store_id: String,
    pub resource: Resource,
    pub detail: Detail,
}

pub struct LoginResponse {
    pub store_id: String,
    pub acknowledgement: Option<String>,
    pub detail: Detail,
    pub status: Status,
}

pub struct InitResponse {
    pub acknowledgement: Option<String>,
    pub detail: Detail,
    pub status: Status,
}

pub struct LogoutResponse {
    pub store_id: Option<String>,
    pub acknowledgement: Option<String>,
    pub detail: Detail,
    pub status: Status,
}

pub struct DeleteResponse {
    pub deleted_resource_id: String,
    pub acknowledgement: Option<String>,
    pub detail: Detail,
    pub status: Status,
}

pub struct GenericError {
    pub acknowledgement: Option<String>,
    pub detail: Detail,
    pub status: Status,
}

pub struct JSONData {
    pub payload: JsonValue,
    pub detail: Option<JsonValue>,
    pub resource: Resource,
}

pub struct JSONDataEntry {
    pub payload: JsonValue,
    pub id: String,
    pub detail: Option<JsonValue>,
    pub resource: Resource,
}

pub struct ErrorResponse {
    pub acknowledgement: Option<String>,
    pub message: Option<String>,
    pub code: Option<ErrorCode>,
}

/// The detail that an error response reports: its message under `ErrorMessage` and the
/// number of its code under `ErrorCode`, each when present.
pub open spec fn error_detail_model(message: Option<String>, code: Option<ErrorCode>) -> Seq<
    (DataFieldType, JsonModel),
> {
    let with_message = match message {
        Some(m) => seq![(DataFieldType::ErrorMessage, JsonModel::String(m@))],
        None => Seq::empty(),
    };
    match code {
        Some(c) => with_message.push((DataFieldType::ErrorCode, JsonModel::Number(error_code_text(c)))),
        None => with_message,
    }
}

/// Access to what every response carries.
pub trait ResponseEnumTrait: Sized {
    spec fn spec_acknowledgement(&self) -> Option<String>;

    spec fn spec_status(&self) -> Status;

    /// The content of the detail that the response reports.
    spec fn spec_detail_model(&self) -> Seq<(DataFieldType, JsonModel)>;

    /// The response with its acknowledgement replaced.
    spec fn spec_with_acknowledgement(&self, acknowledgement: Option<String>) -> Self;

    fn get_acknowledgement(&self) -> (res: Option<String>)
        ensures
            res == self.spec_acknowledgement(),
    ;

    fn get_detail(&self) -> (res: Detail)
        ensures
            detail_model(res@) == self.spec_detail_model(),
    ;

    fn set_acknowledgement(&mut self, acknowledgement: Option<String>)
        ensures
            *final(self) == old(self).spec_with_acknowledgement(acknowledgement),
    ;

    fn get_status(&self) -> (res: Status)
        ensures
            res == self.spec_status(),
    ;
}

impl ResponseEnumTrait for GetResponse {
    open spec fn spec_acknowledgement(&self) -> Option<String> {
        self.acknowledgement
    }

    open spec fn spec_status(&self) -> Status {
        self.status
    }

    open spec fn spec_detail_model(&self) -> Seq<(DataFieldType, JsonModel)> {
        detail_model(self.detail@)
    }

    open spec fn spec_with_acknowledgement(&self, acknowledgement: Option<String>) -> Self {
        GetResponse { acknowledgement, ..*self }
    }

    fn get_acknowledgement(&self) -> (res: Option<String>) {
        self.acknowledgement.clone()
    }

    fn get_detail(&self) -> (res: Detail) {
        copy_detail(&self.detail)
    }

    fn set_acknowledgement(&mut self, acknowledgement: Option<String>) {
        self.acknowledgement = acknowledgement;
    }

    fn get_status(&self) -> (res: Status) {
        self.status.copy()
    }
}

impl ResponseEnumTrait for SearchResponse {
    open spec fn spec_acknowledgement(&self) -> Option<String> {
        self.acknowledgement
    }

    open spec fn spec_status(&self) -> Status {
        self.status
    }

    open spec fn spec_detail_model(&self) -> Seq<(DataFieldType, JsonModel)> {
        detail_model(self.detail@)
    }

    open spec fn spec_with_acknowledgement(&self, acknowledgement: Option<String>) -> Self {
        SearchResponse { acknowledgement, ..*self }
    }

    fn get_acknowledgement(&self) -> (res: Option<String>) {
        self.acknowledgement.clone()
    }

    fn get_detail(&self) -> (res: Detail) {
        copy_detail(&self.detail)
    }

    fn set_acknowledgement(&mut self, acknowledgement: Option<String>) {
        self.acknowledgement = acknowledgement;
    }

    fn get_status(&self) -> (res: Status) {
        self.status.copy()
    }
}

impl ResponseEnumTrait for FetchResponse {
    open spec fn spec_acknowledgement(&self) -> Option<String> {
        self.acknowledgement
    }

    open spec fn spec_status(&self) -> Status {
        self.status
    }

    open spec fn spec_detail_model(&self) -> Seq<(DataFieldType, JsonModel)> {
        detail_model(self.detail@)
    }

    open spec fn spec_with_acknowledgement(&self, acknowledgement: Option<String>) -> Self {
        FetchResponse { acknowledgement, ..*self }
    }

    fn get_acknowledgement(&self) -> (res: Option<String>) {
        self.acknowledgement.clone()
    }

    fn get_detail(&self) -> (res: Detail) {
        copy_detail(&self.detail)
    }

    fn set_acknowledgement(&mut self, acknowledgement: Option<String>) {
        self.acknowledgement = acknowledgement;
    }

    fn get_status(&self) -> (res: Status) {
        self.status.copy()
    }
}

impl ResponseEnumTrait for LoginResponse {
    open spec fn spec_acknowledgement(&self) -> Option<String> {
        self.acknowledgement
    }

    open spec fn spec_status(&self) -> Status {
        self.status
    }

    open spec fn spec_detail_model(&self) -> Seq<(DataFieldType, JsonModel)> {
        detail_model(self.detail@)
    }

    open spec fn spec_with_acknowledgement(&self, acknowledgement: Option<String>) -> Self {
        LoginResponse { acknowledgement, ..*self }
    }

    fn get_acknowledgement(&self) -> (res: Option<String>) {
        self.acknowledgement.clone()
    }

    fn get_detail(&self) -> (res: Detail) {
        copy_detail(&self.detail)
    }

    fn set_acknowledgement(&mut self, acknowledgement: Option<String>) {
        self.acknowledgement = acknowledgement;
    }

    fn get_status(&self) -> (res: Status) {
        self.status.copy()
    }
}

impl ResponseEnumTrait for InitResponse {
    open spec fn spec_acknowledgement(&self) -> Option<String> {
        self.acknowledgement
    }

    open spec fn spec_status(&self) -> Status {
        self.status
    }

    open spec fn spec_detail_model(&self) -> Seq<(DataFieldType, JsonModel)> {
        detail_model(self.detail@)
    }

    open spec fn spec_with_acknowledgement(&self, acknowledgement: Option<String>) -> Self {
        InitResponse { acknowledgement, ..*self }
    }

    fn get_acknowledgement(&self) -> (res: Option<String>) {
        self.acknowledgement.clone()
    }

    fn get_detail(&self) -> (res: Detail) {
        copy_detail(&self.detail)
    }

    fn set_acknowledgement(&mut self, acknowledgement: Option<String>) {
        self.acknowledgement = acknowledgement;
    }

    fn get_status(&self) -> (res: Status) {
        self.status.copy()
    }
}

impl ResponseEnumTrait for LogoutResponse {
    open spec fn spec_acknowledgement(&self) -> Option<String> {
        self.acknowledgement
    }

    open spec fn spec_status(&self) -> Status {
        self.status
    }

    open spec fn spec_detail_model(&self) -> Seq<(DataFieldType, JsonModel)> {
        detail_model(self.detail@)
    }

    open spec fn spec_with_acknowledgement(&self, acknowledgement: Option<String>) -> Self {
        LogoutResponse { acknowledgement, ..*self }
    }

    fn get_acknowledgement(&self) -> (res: Option<String>) {
        self.acknowledgement.clone()
    }

    fn get_detail(&self) -> (res: Detail) {
        copy_detail(&self.detail)
    }

    fn set_acknowledgement(&mut self, acknowledgement: Option<String>) {
        self.acknowledgement = acknowledgement;
    }

    fn get_status(&self) -> (res: Status) {
        self.status.copy()
    }
}

impl ResponseEnumTrait for CreateResponse {
    open spec fn spec_acknowledgement(&self) -> Option<String> {
        self.acknowledgement
    }

    open spec fn spec_status(&self) -> Status {
        self.status
    }

    open spec fn spec_detail_model(&self) -> Seq<(DataFieldType, JsonModel)> {
        detail_model(self.detail@)
    }

    open spec fn spec_with_acknowledgement(&self, acknowledgement: Option<String>) -> Self {
        CreateResponse { acknowledgement, ..*self }
    }

    fn get_acknowledgement(&self) -> (res: Option<String>) {
        self.acknowledgement.clone()
    }

    fn get_detail(&self) -> (res: Detail) {
        copy_detail(&self.detail)
    }

    fn set_acknowledgement(&mut self, acknowledgement: Option<String>) {
        self.acknowledgement = acknowledgement;
    }

    fn get_status(&self) -> (res: Status) {
        self.status.copy()
    }
}

impl ResponseEnumTrait for CreateStoreResponse {
    open spec fn spec_acknowledgement(&self) -> Option<String> {
        self.acknowledgement
    }

    open spec fn spec_status(&self) -> Status {
        self.status
    }

    open spec fn spec_detail_model(&self) -> Seq<(DataFieldType, JsonModel)> {
        detail_model(self.detail@)
    }

    open spec fn spec_with_acknowledgement(&self, acknowledgement: Option<String>) -> Self {
        CreateStoreResponse { acknowledgement, ..*self }
    }

    fn get_acknowledgement(&self) -> (res: Option<String>) {
        self.acknowledgement.clone()
    }

    fn get_detail(&self) -> (res: Detail) {
        copy_detail(&self.detail)
    }

    fn set_acknowledgement(&mut self, acknowledgement: Option<String>) {
        self.acknowledgement = acknowledgement;
    }

    fn get_status(&self) -> (res: Status) {
        self.status.copy()
    }
}

impl ResponseEnumTrait for EditResponse {
    open spec fn spec_acknowledgement(&self) -> Option<String> {
        self.acknowledgement
    }

    open spec fn spec_status(&self) -> Status {
        self.status
    }

    open spec fn spec_detail_model(&self) -> Seq<(DataFieldType, JsonModel)> {
        detail_model(self.detail@)
    }

    open spec fn spec_with_acknowledgement(&self, acknowledgement: Option<String>) -> Self {
        EditResponse { acknowledgement, ..*self }
    }

    fn get_acknowledgement(&self) -> (res: Option<String>) {
        self.acknowledgement.clone()
    }

    fn get_detail(&self) -> (res: Detail) {
        copy_detail(&self.detail)
    }

    fn set_acknowledgement(&mut self, acknowledgement: Option<String>) {
        self.acknowledgement = acknowledgement;
    }

    fn get_status(&self) -> (res: Status) {
        self.status.copy()
    }
}

impl ResponseEnumTrait for DeleteResponse {
    open spec fn spec_acknowledgement(&self) -> Option<String> {
        self.acknowledgement
    }

    open spec fn spec_status(&self) -> Status {
        self.status
    }

    open spec fn spec_detail_model(&self) -> Seq<(DataFieldType, JsonModel)> {
        detail_model(self.detail@)
    }

    open spec fn spec_with_acknowledgement(&self, acknowledgement: Option<String>) -> Self {
        DeleteResponse { acknowledgement, ..*self }
    }

    fn get_acknowledgement(&self) -> (res: Option<String>) {
        self.acknowledgement.clone()
    }

    fn get_detail(&self) -> (res: Detail) {
        copy_detail(&self.detail)
    }

    fn set_acknowledgement(&mut self, acknowledgement: Option<String>) {
        self.acknowledgement = acknowledgement;
    }

    fn get_status(&self) -> (res: Status) {
        self.status.copy()
    }
}

impl ResponseEnumTrait for DeleteStoreResponse {
    open spec fn spec_acknowledgement(&self) -> Option<String> {
        self.acknowledgement
    }

    open spec fn spec_status(&self) -> Status {
        self.status
    }

    open spec fn spec_detail_model(&self) -> Seq<(DataFieldType, JsonModel)> {
        detail_model(self.detail@)
    }

    open spec fn spec_with_acknowledgement(&self, acknowledgement: Option<String>) -> Self {
        DeleteStoreResponse { acknowledgement, ..*self }
    }

    fn get_acknowledgement(&self) -> (res: Option<String>) {
        self.acknowledgement.clone()
    }

    fn get_detail(&self) -> (res: Detail) {
        copy_detail(&self.detail)
    }

    fn set_acknowledgement(&mut self, acknowledgement: Option<String>) {
        self.acknowledgement = acknowledgement;
    }

    fn get_status(&self) -> (res: Status) {
        self.status.copy()
    }
}

impl ResponseEnumTrait for GenericError {
    open spec fn spec_acknowledgement(&self) -> Option<String> {
        self.acknowledgement
    }

    open spec fn spec_status(&self) -> Status {
        self.status
    }

    open spec fn spec_detail_model(&self) -> Seq<(DataFieldType, JsonModel)> {
        detail_model(self.detail@)
    }

    open spec fn spec_with_acknowledgement(&self, acknowledgement: Option<String>) -> Self {
        GenericError { acknowledgement, ..*self }
    }

    fn get_acknowledgement(&self) -> (res: Option<String>) {
        self.acknowledgement.clone()
    }

    fn get_detail(&self) -> (res: Detail) {
        copy_detail(&self.detail)
    }

    fn set_acknowledgement(&mut self, acknowledgement: Option<String>) {
        self.acknowledgement = acknowledgement;
    }

    fn get_status(&self) -> (res: Status) {
        self.status.copy()
    }
}

impl ResponseEnumTrait for ErrorResponse {
    open spec fn spec_acknowledgement(&self) -> Option<String> {
        self.acknowledgement
    }

    open spec fn spec_status(&self) -> Status {
        Status::Error
    }

    open spec fn spec_detail_model(&self) -> Seq<(DataFieldType, JsonModel)> {
        error_detail_model(self.message, self.code)
    }

    open spec fn spec_with_acknowledgement(&self, acknowledgement: Option<String>) -> Self {
        ErrorResponse { acknowledgement, ..*self }
    }

    fn get_acknowledgement(&self) -> (res: Option<String>) {
        self.acknowledgement.clone()
    }

    fn get_detail(&self) -> (res: Detail) {
        let mut detail: Detail = Vec::new();
        if let Some(message) = &self.message {
            detail.push((DataFieldType::ErrorMessage, JsonValue::String(message.clone())));
        }
        if let Some(code) = &self.code {
            detail.push((DataFieldType::ErrorCode, JsonValue::Number(code.text().to_string())));
        }
        proof {
            reveal_with_fuel(detail_model, 3);
        }
        assert(detail_model(detail@) =~= error_detail_model(self.message, self.code));
        detail
    }

    fn set_acknowledgement(&mut self, acknowledgement: Option<String>) {
        self.acknowledgement = acknowledgement;
    }

    fn get_status(&self) -> (res: Status) {
        Status::Error
    }
}

/// A response, tagged with its kind.
pub enum ResponseEnum {
    GetResponse(GetResponse),
    SearchResponse(SearchResponse),
    FetchResponse(FetchResponse),
    LoginResponse(LoginResponse),
    ErrorResponse(ErrorResponse),
    InitResponse(InitResponse),
    LogoutResponse(LogoutResponse),
    CreateResponse(CreateResponse),
    CreateStoreResponse(CreateStoreResponse),
    EditResponse(EditResponse),
    DeleteResponse(DeleteResponse),
    DeleteStoreResponse(DeleteStoreResponse),
    GenericError(GenericError),
}

/// The name a response kind is written with in messages.
pub open spec fn response_type_name(r: ResponseEnum) -> Seq<char> {
    match r {
        ResponseEnum::GetResponse(_) => "get_response"@,
        ResponseEnum::SearchResponse(_) => "search_response"@,
        ResponseEnum::FetchResponse(_) => "fetch_response"@,
        ResponseEnum::LoginResponse(_) => "login_response"@,
        ResponseEnum::ErrorResponse(_) => "error_response"@,
        ResponseEnum::InitResponse(_) => "init_response"@,
        ResponseEnum::LogoutResponse(_) => "logout_response"@,
        ResponseEnum::CreateResponse(_) => "create_response"@,
        ResponseEnum::CreateStoreResponse(_) => "create_store_response"@,
        ResponseEnum::EditResponse(_) => "edit_response"@,
        ResponseEnum::DeleteResponse(_) => "delete_response"@,
        ResponseEnum::DeleteStoreResponse(_) => "delete_store_response"@,
        ResponseEnum::GenericError(_) => "generic_error"@,
    }
}

impl ResponseEnumTrait for ResponseEnum {
    open spec fn spec_acknowledgement(&self) -> Option<String> {
        match self {
            ResponseEnum::GetResponse(r) => r.spec_acknowledgement(),
            ResponseEnum::SearchResponse(r) => r.spec_acknowledgement(),
            ResponseEnum::FetchResponse(r) => r.spec_acknowledgement(),
            ResponseEnum::LoginResponse(r) => r.spec_acknowledgement(),
            ResponseEnum::ErrorResponse(r) => r.spec_acknowledgement(),
            ResponseEnum::InitResponse(r) => r.spec_acknowledgement(),
            ResponseEnum::LogoutResponse(r) => r.spec_acknowledgement(),
            ResponseEnum::CreateResponse(r) => r.spec_acknowledgement(),
            ResponseEnum::CreateStoreResponse(r) => r.spec_acknowledgement(),
            ResponseEnum::EditResponse(r) => r.spec_acknowledgement(),
            ResponseEnum::DeleteResponse(r) => r.spec_acknowledgement(),
            ResponseEnum::DeleteStoreResponse(r) => r.spec_acknowledgement(),
            ResponseEnum::GenericError(r) => r.spec_acknowledgement(),
        }
    }

    open spec fn spec_status(&self) -> Status {
        match self {
            ResponseEnum::GetResponse(r) => r.spec_status(),
            ResponseEnum::SearchResponse(r) => r.spec_status(),
            ResponseEnum::FetchResponse(r) => r.spec_status(),
            ResponseEnum::LoginResponse(r) => r.spec_status(),
            ResponseEnum::ErrorResponse(r) => r.spec_status(),
            ResponseEnum::InitResponse(r) => r.spec_status(),
            ResponseEnum::LogoutResponse(r) => r.spec_status(),
            ResponseEnum::CreateResponse(r) => r.spec_status(),
            ResponseEnum::CreateStoreResponse(r) => r.spec_status(),
            ResponseEnum::EditResponse(r) => r.spec_status(),
            ResponseEnum::DeleteResponse(r) => r.spec_status(),
            ResponseEnum::DeleteStoreResponse(r) => r.spec_status(),
            ResponseEnum::GenericError(r) => r.spec_status(),
        }
    }

    open spec fn spec_detail_model(&self) -> Seq<(DataFieldType, JsonModel)> {
        match self {
            ResponseEnum::GetResponse(r) => r.spec_detail_model(),
            ResponseEnum::SearchResponse(r) => r.spec_detail_model(),
            ResponseEnum::FetchResponse(r) => r.spec_detail_model(),
            ResponseEnum::LoginResponse(r) => r.spec_detail_model(),
            ResponseEnum::ErrorResponse(r) => r.spec_detail_model(),
            ResponseEnum::InitResponse(r) => r.spec_detail_model(),
            ResponseEnum::LogoutResponse(r) => r.spec_detail_model(),
            ResponseEnum::CreateResponse(r) => r.spec_detail_model(),
            ResponseEnum::CreateStoreResponse(r) => r.spec_detail_model(),
            ResponseEnum::EditResponse(r) => r.spec_detail_model(),
            ResponseEnum::DeleteResponse(r) => r.spec_detail_model(),
            ResponseEnum::DeleteStoreResponse(r) => r.spec_detail_model(),
            ResponseEnum::GenericError(r) => r.spec_detail_model(),
        }
    }

    open spec fn spec_with_acknowledgement(&self, acknowledgement: Option<String>) -> Self {
        match self {
            ResponseEnum::GetResponse(r) => ResponseEnum::GetResponse(r.spec_with_acknowledgement(acknowledgement)),
            ResponseEnum::SearchResponse(r) => ResponseEnum::SearchResponse(r.spec_with_acknowledgement(acknowledgement)),
            ResponseEnum::FetchResponse(r) => ResponseEnum::FetchResponse(r.spec_with_acknowledgement(acknowledgement)),
            ResponseEnum::LoginResponse(r) => ResponseEnum::LoginResponse(r.spec_with_acknowledgement(acknowledgement)),
            ResponseEnum::ErrorResponse(r) => ResponseEnum::ErrorResponse(r.spec_with_acknowledgement(acknowledgement)),
            ResponseEnum::InitResponse(r) => ResponseEnum::InitResponse(r.spec_with_acknowledgement(acknowledgement)),
            ResponseEnum::LogoutResponse(r) => ResponseEnum::LogoutResponse(r.spec_with_acknowledgement(acknowledgement)),
            ResponseEnum::CreateResponse(r) => ResponseEnum::CreateResponse(r.spec_with_acknowledgement(acknowledgement)),
            ResponseEnum::CreateStoreResponse(r) => ResponseEnum::CreateStoreResponse(r.spec_with_acknowledgement(acknowledgement)),
            ResponseEnum::EditResponse(r) => ResponseEnum::EditResponse(r.spec_with_acknowledgement(acknowledgement)),
            ResponseEnum::DeleteResponse(r) => ResponseEnum::DeleteResponse(r.spec_with_acknowledgement(acknowledgement)),
            ResponseEnum::DeleteStoreResponse(r) => ResponseEnum::DeleteStoreResponse(r.spec_with_acknowledgement(acknowledgement)),
            ResponseEnum::GenericError(r) => ResponseEnum::GenericError(r.spec_with_acknowledgement(acknowledgement)),
        }
    }

    fn get_acknowledgement(&self) -> (res: Option<String>) {
        match self {
            ResponseEnum::GetResponse(r) => r.get_acknowledgement(),
            ResponseEnum::SearchResponse(r) => r.get_acknowledgement(),
            ResponseEnum::FetchResponse(r) => r.get_acknowledgement(),
            ResponseEnum::LoginResponse(r) => r.get_acknowledgement(),
            ResponseEnum::ErrorResponse(r) => r.get_acknowledgement(),
            ResponseEnum::InitResponse(r) => r.get_acknowledgement(),
            ResponseEnum::LogoutResponse(r) => r.get_acknowledgement(),
            ResponseEnum::CreateResponse(r) => r.get_acknowledgement(),
            ResponseEnum::CreateStoreResponse(r) => r.get_acknowledgement(),
            ResponseEnum::EditResponse(r) => r.get_acknowledgement(),
            ResponseEnum::DeleteResponse(r) => r.get_acknowledgement(),
            ResponseEnum::DeleteStoreResponse(r) => r.get_acknowledgement(),
            ResponseEnum::GenericError(r) => r.get_acknowledgement(),
        }
    }

    fn get_detail(&self) -> (res: Detail) {
        match self {
            ResponseEnum::GetResponse(r) => r.get_detail(),
            ResponseEnum::SearchResponse(r) => r.get_detail(),
            ResponseEnum::FetchResponse(r) => r.get_detail(),
            ResponseEnum::LoginResponse(r) => r.get_detail(),
            ResponseEnum::ErrorResponse(r) => r.get_detail(),
            ResponseEnum::InitResponse(r) => r.get_detail(),
            ResponseEnum::LogoutResponse(r) => r.get_detail(),
            ResponseEnum::CreateResponse(r) => r.get_detail(),
            ResponseEnum::CreateStoreResponse(r) => r.get_detail(),
            ResponseEnum::EditResponse(r) => r.get_detail(),
            ResponseEnum::DeleteResponse(r) => r.get_detail(),
            ResponseEnum::DeleteStoreResponse(r) => r.get_detail(),
            ResponseEnum::GenericError(r) => r.get_detail(),
        }
    }

    fn set_acknowledgement(&mut self, acknowledgement: Option<String>) {
        match self {
            ResponseEnum::GetResponse(r) => r.set_acknowledgement(acknowledgement),
            ResponseEnum::SearchResponse(r) => r.set_acknowledgement(acknowledgement),
            ResponseEnum::FetchResponse(r) => r.set_acknowledgement(acknowledgement),
            ResponseEnum::LoginResponse(r) => r.set_acknowledgement(acknowledgement),
            ResponseEnum::ErrorResponse(r) => r.set_acknowledgement(acknowledgement),
            ResponseEnum::InitResponse(r) => r.set_acknowledgement(acknowledgement),
            ResponseEnum::LogoutResponse(r) => r.set_acknowledgement(acknowledgement),
            ResponseEnum::CreateResponse(r) => r.set_acknowledgement(acknowledgement),
            ResponseEnum::CreateStoreResponse(r) => r.set_acknowledgement(acknowledgement),
            ResponseEnum::EditResponse(r) => r.set_acknowledgement(acknowledgement),
            ResponseEnum::DeleteResponse(r) => r.set_acknowledgement(acknowledgement),
            ResponseEnum::DeleteStoreResponse(r) => r.set_acknowledgement(acknowledgement),
            ResponseEnum::GenericError(r) => r.set_acknowledgement(acknowledgement),
        }
    }

    fn get_status(&self) -> (res: Status) {
        match self {
            ResponseEnum::GetResponse(r) => r.get_status(),
            ResponseEnum::SearchResponse(r) => r.get_status(),
            ResponseEnum::FetchResponse(r) => r.get_status(),
            ResponseEnum::LoginResponse(r) => r.get_status(),
            ResponseEnum::ErrorResponse(r) => r.get_status(),
            ResponseEnum::InitResponse(r) => r.get_status(),
            ResponseEnum::LogoutResponse(r) => r.get_status(),
            ResponseEnum::CreateResponse(r) => r.get_status(),
            ResponseEnum::CreateStoreResponse(r) => r.get_status(),
            ResponseEnum::EditResponse(r) => r.get_status(),
            ResponseEnum::DeleteResponse(r) => r.get_status(),
            ResponseEnum::DeleteStoreResponse(r) => r.get_status(),
            ResponseEnum::GenericError(r) => r.get_status(),
        }
    }
}

impl ResponseEnum {
    /// The name the response's kind is written with in messages.
    pub fn kind_name(&self) -> (res: &'static str)
        ensures
            res@ == response_type_name(*self),
    {
        match self {
            ResponseEnum::GetResponse(_) => "get_response",
            ResponseEnum::SearchResponse(_) => "search_response",
            ResponseEnum::FetchResponse(_) => "fetch_response",
            ResponseEnum::LoginResponse(_) => "login_response",
            ResponseEnum::ErrorResponse(_) => "error_response",
            ResponseEnum::InitResponse(_) => "init_response",
            ResponseEnum::LogoutResponse(_) => "logout_response",
            ResponseEnum::CreateResponse(_) => "create_response",
            ResponseEnum::CreateStoreResponse(_) => "create_store_response",
            ResponseEnum::EditResponse(_) => "edit_response",
            ResponseEnum::DeleteResponse(_) => "delete_response",
            ResponseEnum::DeleteStoreResponse(_) => "delete_store_response",
            ResponseEnum::GenericError(_) => "generic_error",
        }
    }
}

/// A message between the extension's components: a request or a response.
pub enum MessageEnum {
    Message(RequestEnum),
    Response(ResponseEnum),
}

/// A payload: text, or a JSON object.
pub enum Data {
    String(String),
    JSON(JsonMap),
}

/// Values of one kind of resource.
pub struct ResourceData {
    pub resource: Resource,
    pub data: Vec<JsonValue>,
    pub detail: Option<JsonValue>,
}

} // verus!
