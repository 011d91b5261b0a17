//! The errors of the HTTP layer and of the component's interface, and the
//! mappings between them.

use vstd::prelude::*;
use crate::text::{decimal, push_decimal};

verus! {

/// Errors of the HTTP layer, before they are mapped to an interface error.
#[derive(Debug)]
pub enum HttpError {
    Unauthorized(String),
    NotFound(String),
    Validation(String),
    Conflict(String),
    TooManyRequests(String),
    InternalError(String),
    Unknown(String),
}

impl HttpError {
    /// The message that every variant carries.
    pub open spec fn inner(self) -> String {
        match self {
            HttpError::Unauthorized(m) => m,
            HttpError::NotFound(m) => m,
            HttpError::Validation(m) => m,
            HttpError::Conflict(m) => m,
            HttpError::TooManyRequests(m) => m,
            HttpError::InternalError(m) => m,
            HttpError::Unknown(m) => m,
        }
    }

    /// The message of the error, whatever its variant.
    pub fn message(self) -> (res: String)
        ensures
            res == self.inner(),
    {
        match self {
            HttpError::Unauthorized(message) => message,
            HttpError::NotFound(message) => message,
            HttpError::Validation(message) => message,
            HttpError::Conflict(message) => message,
            HttpError::TooManyRequests(message) => message,
            HttpError::InternalError(message) => message,
            HttpError::Unknown(message) => message,
        }
    }
}

/// Errors of the operations that only need a valid API key.
#[derive(Debug)]
pub enum AuthError {
    Unauthorized(String),
    TooManyRequests(String),
    Unknown(String),
}

/// Errors of the listing operations that take query parameters.
#[derive(Debug)]
pub enum QueryError {
    Unauthorized(String),
    Validation(String),
    TooManyRequests(String),
    Unknown(String),
}

/// Errors of the operations on one resource given by its identifier.
#[derive(Debug)]
pub enum ResourceError {
    Unauthorized(String),
    NotFound(String),
    Validation(String),
    TooManyRequests(String),
    Unknown(String),
}

/// Errors of the operation that sends a bot to a call.
#[derive(Debug)]
pub enum JoinCallError {
    Unauthorized(String),
    Conflict(String),
    Validation(String),
    TooManyRequests(String),
    InternalError(String),
    Unknown(String),
}

impl AuthError {
    /// The message that every variant carries.
    pub open spec fn inner(self) -> String {
        match self {
            AuthError::Unauthorized(m) => m,
            AuthError::TooManyRequests(m) => m,
            AuthError::Unknown(m) => m,
        }
    }
}

impl QueryError {
    /// The message that every variant carries.
    pub open spec fn inner(self) -> String {
        match self {
            QueryError::Unauthorized(m) => m,
            QueryError::Validation(m) => m,
            QueryError::TooManyRequests(m) => m,
            QueryError::Unknown(m) => m,
        }
    }
}

impl ResourceError {
    /// The message that every variant carries.
    pub open spec fn inner(self) -> String {
        match self {
            ResourceError::Unauthorized(m) => m,
            ResourceError::NotFound(m) => m,
            ResourceError::Validation(m) => m,
            ResourceError::TooManyRequests(m) => m,
            ResourceError::Unknown(m) => m,
        }
    }
}

impl JoinCallError {
    /// The message that every variant carries.
    pub open spec fn inner(self) -> String {
        match self {
            JoinCallError::Unauthorized(m) => m,
            JoinCallError::Conflict(m) => m,
            JoinCallError::Validation(m) => m,
            JoinCallError::TooManyRequests(m) => m,
            JoinCallError::InternalError(m) => m,
            JoinCallError::Unknown(m) => m,
        }
    }
}

/// The message of the error for a status code without a variant of its own.
pub open spec fn unknown_status_message(status: u16, body: Seq<char>) -> Seq<char> {
    "HTTP "@ + decimal(status as nat) + ": "@ + body
}

/// `error` is the one that a response with this status and body maps to.
pub open spec fn is_status_error(error: HttpError, status: u16, body: Seq<char>) -> bool {
    if status == 401 {
        error is Unauthorized && error.inner()@ == body
    } else if status == 404 {
        error is NotFound && error.inner()@ == body
    } else if status == 409 {
        error is Conflict && error.inner()@ == body
    } else if status == 422 {
        error is Validation && error.inner()@ == body
    } else if status == 429 {
        error is TooManyRequests && error.inner()@ == body
    } else if status == 500 {
        error is InternalError && error.inner()@ == body
    } else {
        error is Unknown && error.inner()@ == unknown_status_message(status, body)
    }
}

/// Maps an HTTP status code, and the response body, to the matching error.
pub fn map_status_code_to_http_error(status: u16, body: String) -> (res: HttpError)
    ensures
        is_status_error(res, status, body@),
        status == 401 ==> res == HttpError::Unauthorized(body),
        status == 404 ==> res == HttpError::NotFound(body),
        status == 409 ==> res == HttpError::Conflict(body),
        status == 422 ==> res == HttpError::Validation(body),
        status == 429 ==> res == HttpError::TooManyRequests(body),
        status == 500 ==> res == HttpError::InternalError(body),
        !(status == 401 || status == 404 || status == 409 || status == 422 || status == 429
            || status == 500) ==> res is Unknown && res.inner()@ == unknown_status_message(
            status,
            body@,
        ),
{
    match status {
        401 => HttpError::Unauthorized(body),
        404 => HttpError::NotFound(body),
        409 => HttpError::Conflict(body),
        422 => HttpError::Validation(body),
        429 => HttpError::TooManyRequests(body),
        500 => HttpError::InternalError(body),
        _ => {
            let mut message = String::from_str("HTTP ");
            push_decimal(&mut message, status as usize);
            message.append(": ");
            message.append(body.as_str());
            HttpError::Unknown(message)
        },
    }
}

/// The `AuthError` that an HTTP error maps to.
pub open spec fn auth_error_for(error: HttpError) -> AuthError {
    match error {
            HttpError::Unauthorized(m) => AuthError::Unauthorized(m),
            HttpError::TooManyRequests(m) => AuthError::TooManyRequests(m),
            _ => AuthError::Unknown(error.inner()),
        }
}

/// The `QueryError` that an HTTP error maps to.
pub open spec fn query_error_for(error: HttpError) -> QueryError {
    match error {
            HttpError::Unauthorized(m) => QueryError::Unauthorized(m),
            HttpError::Validation(m) => QueryError::Validation(m),
            HttpError::TooManyRequests(m) => QueryError::TooManyRequests(m),
            _ => QueryError::Unknown(error.inner()),
        }
}

/// The `ResourceError` that an HTTP error maps to.
pub open spec fn resource_error_for(error: HttpError) -> ResourceError {
    match error {
            HttpError::Unauthorized(m) => ResourceError::Unauthorized(m),
            HttpError::NotFound(m) => ResourceError::NotFound(m),
            HttpError::Validation(m) => ResourceError::Validation(m),
            HttpError::TooManyRequests(m) => ResourceError::TooManyRequests(m),
            _ => ResourceError::Unknown(error.inner()),
        }
}

/// The `JoinCallError` that an HTTP error maps to.
pub open spec fn join_call_error_for(error: HttpError) -> JoinCallError {
    match error {
            HttpError::Unauthorized(m) => JoinCallError::Unauthorized(m),
            HttpError::Conflict(m) => JoinCallError::Conflict(m),
            HttpError::Validation(m) => JoinCallError::Validation(m),
            HttpError::TooManyRequests(m) => JoinCallError::TooManyRequests(m),
            HttpError::InternalError(m) => JoinCallError::InternalError(m),
            _ => JoinCallError::Unknown(error.inner()),
        }
}

/// Maps an HTTP error to the errors of the operations that only need a valid API key.
pub fn map_http_error_to_auth_error(error: HttpError) -> (res: AuthError)
    ensures
        res == auth_error_for(error),
        error matches HttpError::Unauthorized(m) ==> res == AuthError::Unauthorized(m),
        error matches HttpError::TooManyRequests(m) ==> res == AuthError::TooManyRequests(m),
        !(error is Unauthorized || error is TooManyRequests) ==> res == AuthError::Unknown(
            error.inner(),
        ),
{
    match error {
        HttpError::Unauthorized(message) => AuthError::Unauthorized(message),
        HttpError::TooManyRequests(message) => AuthError::TooManyRequests(message),
        other => AuthError::Unknown(other.message()),
    }
}

/// Maps an HTTP error to the errors of the listing operations.
pub fn map_http_error_to_query_error(error: HttpError) -> (res: QueryError)
    ensures
        res == query_error_for(error),
        error matches HttpError::Unauthorized(m) ==> res == QueryError::Unauthorized(m),
        error matches HttpError::Validation(m) ==> res == QueryError::Validation(m),
        error matches HttpError::TooManyRequests(m) ==> res == QueryError::TooManyRequests(m),
        !(error is Unauthorized || error is Validation || error is TooManyRequests) ==> res
            == QueryError::Unknown(error.inner()),
{
    match error {
        HttpError::Unauthorized(message) => QueryError::Unauthorized(message),
        HttpError::Validation(message) => QueryError::Validation(message),
        HttpError::TooManyRequests(message) => QueryError::TooManyRequests(message),
        other => QueryError::Unknown(other.message()),
    }
}

/// Maps an HTTP error to the errors of the single-resource operations.
pub fn map_http_error_to_resource_error(error: HttpError) -> (res: ResourceError)
    ensures
        res == resource_error_for(error),
        error matches HttpError::Unauthorized(m) ==> res == ResourceError::Unauthorized(m),
        error matches HttpError::NotFound(m) ==> res == ResourceError::NotFound(m),
        error matches HttpError::Validation(m) ==> res == ResourceError::Validation(m),
        error matches HttpError::TooManyRequests(m) ==> res == ResourceError::TooManyRequests(m),
        !(error is Unauthorized || error is NotFound || error is Validation
            || error is TooManyRequests) ==> res == ResourceError::Unknown(error.inner()),
{
    match error {
        HttpError::Unauthorized(message) => ResourceError::Unauthorized(message),
        HttpError::NotFound(message) => ResourceError::NotFound(message),
        HttpError::Validation(message) => ResourceError::Validation(message),
        HttpError::TooManyRequests(message) => ResourceError::TooManyRequests(message),
        other => ResourceError::Unknown(other.message()),
    }
}

/// Maps an HTTP error to the errors of the join-call operation.
pub fn map_http_error_to_join_call_error(error: HttpError) -> (res: JoinCallError)
    ensures
        res == join_call_error_for(error),
        error matches HttpError::Unauthorized(m) ==> res == JoinCallError::Unauthorized(m),
        error matches HttpError::Conflict(m) ==> res == JoinCallError::Conflict(m),
        error matches HttpError::Validation(m) ==> res == JoinCallError::Validation(m),
        error matches HttpError::TooManyRequests(m) ==> res == JoinCallError::TooManyRequests(m),
        error matches HttpError::InternalError(m) ==> res == JoinCallError::InternalError(m),
        error matches HttpError::NotFound(m) ==> res == JoinCallError::Unknown(m),
        error matches HttpError::Unknown(m) ==> res == JoinCallError::Unknown(m),
{
    match error {
        HttpError::Unauthorized(message) => JoinCallError::Unauthorized(message),
        HttpError::Conflict(message) => JoinCallError::Conflict(message),
        HttpError::Validation(message) => JoinCallError::Validation(message),
        HttpError::TooManyRequests(message) => JoinCallError::TooManyRequests(message),
        HttpError::InternalError(message) => JoinCallError::InternalError(message),
        other => JoinCallError::Unknown(other.message()),
    }
}

/// Every mapping to an interface error keeps the message of the HTTP error,
/// and an unauthorized or rate-limited request stays so under every mapping.
pub proof fn lemma_error_mappings_keep_message(error: HttpError)
    ensures
        auth_error_for(error).inner() == error.inner(),
        query_error_for(error).inner() == error.inner(),
        resource_error_for(error).inner() == error.inner(),
        join_call_error_for(error).inner() == error.inner(),
        error is Unauthorized ==> auth_error_for(error) is Unauthorized && query_error_for(
            error,
        ) is Unauthorized && resource_error_for(error) is Unauthorized && join_call_error_for(
            error,
        ) is Unauthorized,
        error is TooManyRequests ==> auth_error_for(error) is TooManyRequests && query_error_for(
            error,
        ) is TooManyRequests && resource_error_for(error) is TooManyRequests
            && join_call_error_for(error) is TooManyRequests,
{
}

/// Each status error that an interface error type has a variant for lands in
/// the variant of the same name, with its message; the others become `Unknown`
/// with their message. So a rejected value (422) is a validation error for the
/// listing, resource and join-call operations alike, a missing resource (404)
/// is not-found for the resource operations, and a conflict (409) or a server
/// error (500) keep their kind for the join-call operation.
pub proof fn lemma_error_mappings_keep_kinds(m: String)
    ensures
        auth_error_for(HttpError::Unauthorized(m)) == AuthError::Unauthorized(m),
        auth_error_for(HttpError::TooManyRequests(m)) == AuthError::TooManyRequests(m),
        auth_error_for(HttpError::NotFound(m)) == AuthError::Unknown(m),
        auth_error_for(HttpError::Validation(m)) == AuthError::Unknown(m),
        auth_error_for(HttpError::Conflict(m)) == AuthError::Unknown(m),
        auth_error_for(HttpError::InternalError(m)) == AuthError::Unknown(m),
        auth_error_for(HttpError::Unknown(m)) == AuthError::Unknown(m),
        query_error_for(HttpError::Unauthorized(m)) == QueryError::Unauthorized(m),
        query_error_for(HttpError::Validation(m)) == QueryError::Validation(m),
        query_error_for(HttpError::TooManyRequests(m)) == QueryError::TooManyRequests(m),
        query_error_for(HttpError::NotFound(m)) == QueryError::Unknown(m),
        query_error_for(HttpError::Conflict(m)) == QueryError::Unknown(m),
        query_error_for(HttpError::InternalError(m)) == QueryError::Unknown(m),
        query_error_for(HttpError::Unknown(m)) == QueryError::Unknown(m),
        resource_error_for(HttpError::Unauthorized(m)) == ResourceError::Unauthorized(m),
        resource_error_for(HttpError::NotFound(m)) == ResourceError::NotFound(m),
        resource_error_for(HttpError::Validation(m)) == ResourceError::Validation(m),
        resource_error_for(HttpError::TooManyRequests(m)) == ResourceError::TooManyRequests(m),
        resource_error_for(HttpError::Conflict(m)) == ResourceError::Unknown(m),
        resource_error_for(HttpError::InternalError(m)) == ResourceError::Unknown(m),
        resource_error_for(HttpError::Unknown(m)) == ResourceError::Unknown(m),
        join_call_error_for(HttpError::Unauthorized(m)) == JoinCallError::Unauthorized(m),
        join_call_error_for(HttpError::Conflict(m)) == JoinCallError::Conflict(m),
        join_call_error_for(HttpError::Validation(m)) == JoinCallError::Validation(m),
        join_call_error_for(HttpError::TooManyRequests(m)) == JoinCallError::TooManyRequests(m),
        join_call_error_for(HttpError::InternalError(m)) == JoinCallError::InternalError(m),
        join_call_error_for(HttpError::NotFound(m)) == JoinCallError::Unknown(m),
        join_call_error_for(HttpError::Unknown(m)) == JoinCallError::Unknown(m),
{
}

} // verus!
