use vstd::prelude::*;

verus! {

/// The error of a key-value store, carrying a human-readable message.
#[derive(Debug)]
pub struct StoreError(pub String);

impl View for StoreError {
    type V = Seq<char>;

    open spec fn view(&self) -> Seq<char> {
        self.0@
    }
}

/// Builds a `StoreError` whose message is `prefix` followed by `detail`.
pub fn store_error(prefix: &str, detail: &str) -> (e: StoreError)
    ensures
        e@ == prefix@ + detail@,
{
    let s = String::from_str(prefix);
    StoreError(s.concat(detail))
}

/// The errors of the storage layer and of the registry of storages.
#[derive(Debug)]
pub enum StorageError {
    OpenDalError(opendal::Error),
    UnexpectedError,
    TokioFsError(std::io::Error),
    NoStorageFound,
    MutexPoisonError(String),
}

/// The kind of a failed request, as the RPC layer reports it.
#[derive(Clone, Copy, Debug, PartialEq, Eq, Structural)]
pub enum ErrorCode {
    BadRequest,
    Unauthorized,
    Forbidden,
    NotFound,
    Timeout,
    Conflict,
    PreconditionFailed,
    PayloadTooLarge,
    MethodNotSupported,
    ClientClosedRequest,
    InternalServerError,
}

/// A failed request: its kind and a message for the caller.
#[derive(Debug)]
pub struct ApiError {
    pub code: ErrorCode,
    pub message: String,
}

pub struct ApiErrorView {
    pub code: ErrorCode,
    pub message: Seq<char>,
}

impl View for ApiError {
    type V = ApiErrorView;

    open spec fn view(&self) -> ApiErrorView {
        ApiErrorView { code: self.code, message: self.message@ }
    }
}

/// An error of kind `code` whose message is `prefix` followed by `detail`.
pub fn api_error(code: ErrorCode, prefix: &str, detail: &str) -> (e: ApiError)
    ensures
        e@ == (ApiErrorView { code, message: prefix@ + detail@ }),
{
    let s = String::from_str(prefix);
    ApiError { code, message: s.concat(detail) }
}

/// An error of kind `code` whose message is `message`.
pub fn api_error_text(code: ErrorCode, message: &str) -> (e: ApiError)
    ensures
        e@ == (ApiErrorView { code, message: message@ }),
{
    ApiError { code, message: String::from_str(message) }
}

} // verus!
