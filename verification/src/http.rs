//! The HTTP mapping in front of the storage engine: which engine operation a
//! request starts, and which response its outcome becomes.

use crate::error::{result_view, StorageError, StorageErrorView};
use crate::storage::{FileStorage, PendingDelete, PendingGet, PendingPut};
use vstd::prelude::*;

verus! {

/// Status of a `PUT` that stored its object.
pub const CREATED: u16 = 201;

/// Status of a `GET` that found its object.
pub const OK: u16 = 200;

/// Status of a `DELETE` that removed its object.
pub const NO_CONTENT: u16 = 204;

/// Status of a request whose key is not accepted.
pub const BAD_REQUEST: u16 = 400;

/// Status of a request for an object that is not stored.
pub const NOT_FOUND: u16 = 404;

/// Status of a request that failed in the filesystem.
pub const INTERNAL_SERVER_ERROR: u16 = 500;

/// The content type of every object.
pub const OCTET_STREAM: &'static str = "application/octet-stream";

/// A request that is answered with an error.
#[derive(Debug, PartialEq, Eq)]
pub enum ApiError {
    /// The request is at fault; the text says how.
    BadRequest(String),
    /// No object is stored under the key, which is carried along.
    NotFound(String),
    /// The server is at fault; the text says how.
    Internal(String),
}

/// The mathematical value of an [`ApiError`].
pub enum ApiErrorView {
    BadRequest(Seq<char>),
    NotFound(Seq<char>),
    Internal(Seq<char>),
}

impl View for ApiError {
    type V = ApiErrorView;

    open spec fn view(&self) -> ApiErrorView {
        match self {
            ApiError::BadRequest(msg) => ApiErrorView::BadRequest(msg@),
            ApiError::NotFound(key) => ApiErrorView::NotFound(key@),
            ApiError::Internal(msg) => ApiErrorView::Internal(msg@),
        }
    }
}

impl ApiErrorView {
    /// The error with which a failed storage operation is answered.
    pub open spec fn of(error: StorageErrorView) -> ApiErrorView {
        match error {
            StorageErrorView::InvalidKey(reason) => ApiErrorView::BadRequest(reason),
            StorageErrorView::NotFound(key) => ApiErrorView::NotFound(key),
            StorageErrorView::Io(detail) => ApiErrorView::Internal("storage I/O error: "@ + detail),
        }
    }

    /// The status code of the response.
    pub open spec fn status(self) -> u16 {
        match self {
            ApiErrorView::BadRequest(_) => BAD_REQUEST,
            ApiErrorView::NotFound(_) => NOT_FOUND,
            ApiErrorView::Internal(_) => INTERNAL_SERVER_ERROR,
        }
    }

    /// The text in the `error` field of the response's body.
    pub open spec fn error_text(self) -> Seq<char> {
        match self {
            ApiErrorView::BadRequest(msg) => msg,
            ApiErrorView::NotFound(key) => "object `"@ + key + "` not found"@,
            ApiErrorView::Internal(msg) => msg,
        }
    }
}

impl ApiError {
    /// An error that blames the request.
    pub fn bad_request(msg: &str) -> (error: ApiError)
        ensures
            error@ == ApiErrorView::BadRequest(msg@),
    {
        ApiError::BadRequest(msg.to_owned())
    }

    /// An error that blames the server.
    pub fn internal(msg: &str) -> (error: ApiError)
        ensures
            error@ == ApiErrorView::Internal(msg@),
    {
        ApiError::Internal(msg.to_owned())
    }
}

/// The conversion claims no equation between values, as the text of an
/// `Internal` error is built anew: what it gives is stated on views, by
/// `from` itself.
impl vstd::std_specs::convert::FromSpecImpl<StorageError> for ApiError {
    open spec fn obeys_from_spec() -> bool {
        false
    }

    open spec fn from_spec(value: StorageError) -> ApiError {
        arbitrary()
    }
}

impl From<StorageError> for ApiError {
    fn from(value: StorageError) -> (error: ApiError)
        ensures
            error@ == ApiErrorView::of(value@),
    {
        match value {
            StorageError::InvalidKey(reason) => ApiError::BadRequest(reason),
            StorageError::NotFound(key) => ApiError::NotFound(key),
            StorageError::Io(detail) => ApiError::Internal(
                "storage I/O error: ".to_owned().concat(detail.as_str()),
            ),
        }
    }
}

/// The body of an error response, before it is written as JSON.
#[derive(Debug, PartialEq, Eq)]
pub struct ErrorBody {
    pub error: String,
}

/// An error response: its status code and its body.
#[derive(Debug, PartialEq, Eq)]
pub struct ErrorResponse {
    pub status: u16,
    pub body: ErrorBody,
}

/// A response to a request that succeeded.
#[derive(Debug, PartialEq, Eq)]
pub struct Response {
    pub status: u16,
    /// The `Content-Type` header, where the response has a body.
    pub content_type: Option<&'static str>,
    /// The `Content-Length` header, where the response has a body.
    pub content_length: Option<usize>,
    pub body: Vec<u8>,
}

/// The mathematical value of a [`Response`].
pub struct ResponseView {
    pub status: u16,
    pub content_type: Option<Seq<char>>,
    pub content_length: Option<nat>,
    pub body: Seq<u8>,
}

impl View for Response {
    type V = ResponseView;

    open spec fn view(&self) -> ResponseView {
        ResponseView {
            status: self.status,
            content_type: match self.content_type {
                Some(name) => Some(name@),
                None => None,
            },
            content_length: match self.content_length {
                Some(len) => Some(len as nat),
                None => None,
            },
            body: self.body@,
        }
    }
}

impl ResponseView {
    /// A response without a body.
    pub open spec fn empty(status: u16) -> ResponseView {
        ResponseView { status, content_type: None, content_length: None, body: Seq::empty() }
    }

    /// The response that carries an object.
    pub open spec fn object(bytes: Seq<u8>) -> ResponseView {
        ResponseView {
            status: OK,
            content_type: Some(OCTET_STREAM@),
            content_length: Some(bytes.len()),
            body: bytes,
        }
    }
}

impl ApiError {
    /// The status code of the response.
    pub fn status(&self) -> (status: u16)
        ensures
            status == self@.status(),
    {
        match self {
            ApiError::BadRequest(_) => BAD_REQUEST,
            ApiError::NotFound(_) => NOT_FOUND,
            ApiError::Internal(_) => INTERNAL_SERVER_ERROR,
        }
    }

    /// The response that reports this error.
    pub fn into_response(self) -> (response: ErrorResponse)
        ensures
            response.status == self@.status(),
            response.body.error@ == self@.error_text(),
    {
        let status = self.status();
        let error = match self {
            ApiError::BadRequest(msg) => msg,
            ApiError::NotFound(key) => "object `".to_owned().concat(key.as_str()).concat(
                "` not found",
            ),
            ApiError::Internal(msg) => msg,
        };
        ErrorResponse { status, body: ErrorBody { error } }
    }
}

/// The outcome of starting an engine operation for a request: a request with
/// an empty key is turned away before the engine sees it.
pub open spec fn started<T>(key: Seq<char>, pending: Result<T, StorageErrorView>) -> Result<
    T,
    ApiErrorView,
> {
    if key.len() == 0 {
        Err(ApiErrorView::BadRequest("object key cannot be empty"@))
    } else {
        match pending {
            Ok(pending) => Ok(pending),
            Err(error) => Err(ApiErrorView::of(error)),
        }
    }
}

/// The answer to a `PUT` whose `put` ended with `result`.
pub open spec fn put_answer(result: Result<(), StorageErrorView>) -> Result<
    ResponseView,
    ApiErrorView,
> {
    match result {
        Ok(_) => Ok(ResponseView::empty(CREATED)),
        Err(error) => Err(ApiErrorView::of(error)),
    }
}

/// The answer to a `GET` whose `get` ended with `result`.
pub open spec fn get_answer(result: Result<Seq<u8>, StorageErrorView>) -> Result<
    ResponseView,
    ApiErrorView,
> {
    match result {
        Ok(bytes) => Ok(ResponseView::object(bytes)),
        Err(error) => Err(ApiErrorView::of(error)),
    }
}

/// The answer to a `DELETE` whose `delete` ended with `result`.
pub open spec fn delete_answer(result: Result<(), StorageErrorView>) -> Result<
    ResponseView,
    ApiErrorView,
> {
    match result {
        Ok(_) => Ok(ResponseView::empty(NO_CONTENT)),
        Err(error) => Err(ApiErrorView::of(error)),
    }
}

/// Turns away a request that names no key.
pub fn ensure_key_present(key: &str) -> (result: Result<(), ApiError>)
    ensures
        match result {
            Ok(_) => key@.len() > 0,
            Err(error) => key@.len() == 0 && error@ == ApiErrorView::BadRequest(
                "object key cannot be empty"@,
            ),
        },
{
    if key.is_empty() {
        return Err(ApiError::bad_request("object key cannot be empty"));
    }
    Ok(())
}

/// Starts the `put` for `PUT <base>/{key}` with `body` as the object.
pub fn put_object<'a>(storage: &FileStorage, key: &str, body: &'a [u8]) -> (result: Result<
    PendingPut<'a>,
    ApiError,
>)
    ensures
        result_view(result) == started(key@, storage@.put(key@, body@)),
{
    match ensure_key_present(key) {
        Ok(_) => match storage.put(key, body) {
            Ok(pending) => Ok(pending),
            Err(error) => Err(ApiError::from(error)),
        },
        Err(error) => Err(error),
    }
}

/// Starts the `get` for `GET <base>/{key}`.
pub fn get_object(storage: &FileStorage, key: &str) -> (result: Result<PendingGet, ApiError>)
    ensures
        result_view(result) == started(key@, storage@.get(key@)),
{
    match ensure_key_present(key) {
        Ok(_) => match storage.get(key) {
            Ok(pending) => Ok(pending),
            Err(error) => Err(ApiError::from(error)),
        },
        Err(error) => Err(error),
    }
}

/// Starts the `delete` for `DELETE <base>/{key}`.
pub fn delete_object(storage: &FileStorage, key: &str) -> (result: Result<PendingDelete, ApiError>)
    ensures
        result_view(result) == started(key@, storage@.delete(key@)),
{
    match ensure_key_present(key) {
        Ok(_) => match storage.delete(key) {
            Ok(pending) => Ok(pending),
            Err(error) => Err(ApiError::from(error)),
        },
        Err(error) => Err(error),
    }
}

/// Answers a `PUT` whose `put` ended with `result`.
pub fn put_response(result: Result<(), StorageError>) -> (response: Result<Response, ApiError>)
    ensures
        result_view(response) == put_answer(result_view(result)),
{
    match result {
        Ok(_) => Ok(
            Response { status: CREATED, content_type: None, content_length: None, body: Vec::new() },
        ),
        Err(error) => Err(ApiError::from(error)),
    }
}

/// Answers a `GET` whose `get` ended with `result`.
pub fn get_response(result: Result<Vec<u8>, StorageError>) -> (response: Result<
    Response,
    ApiError,
>)
    ensures
        result_view(response) == get_answer(result_view(result)),
{
    match result {
        Ok(bytes) => Ok(
            Response {
                status: OK,
                content_type: Some(OCTET_STREAM),
                content_length: Some(bytes.len()),
                body: bytes,
            },
        ),
        Err(error) => Err(ApiError::from(error)),
    }
}

/// Answers a `DELETE` whose `delete` ended with `result`.
pub fn delete_response(result: Result<(), StorageError>) -> (response: Result<Response, ApiError>)
    ensures
        result_view(response) == delete_answer(result_view(result)),
{
    match result {
        Ok(_) => Ok(
            Response {
                status: NO_CONTENT,
                content_type: None,
                content_length: None,
                body: Vec::new(),
            },
        ),
        Err(error) => Err(ApiError::from(error)),
    }
}

} // verus!
