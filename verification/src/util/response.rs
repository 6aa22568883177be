//! Response and error shapes shared by every endpoint of the service.
//!
//! A response either carries a JSON body together with an HTTP status code, or
//! a bare status code. Failures carry at most a machine-readable list of error
//! codes; raw internal detail is never placed in a response.

use vstd::prelude::*;

verus! {

pub const STATUS_OK: u16 = 200;

pub const STATUS_CREATED: u16 = 201;

pub const STATUS_UNAUTHORIZED: u16 = 401;

pub const STATUS_NOT_FOUND: u16 = 404;

pub const STATUS_CONFLICT: u16 = 409;

pub const STATUS_UNPROCESSABLE_ENTITY: u16 = 422;

pub const STATUS_INTERNAL_SERVER_ERROR: u16 = 500;

/// Body of a registration response: a list of error codes when the request
/// was rejected, nothing otherwise.
#[derive(Debug)]
pub struct AuthResponse {
    pub error_codes: Option<Vec<String>>,
}

/// Machine-readable classification of a failed request.
#[derive(Debug)]
pub enum ErrorType {
    RequestInvalid,
}

/// Body of an error response: an optional classification and an optional list
/// of error codes, both omitted from the wire format when absent.
#[derive(Debug)]
pub struct ErrorResponse {
    pub error_type: Option<ErrorType>,
    pub error_codes: Option<Vec<String>>,
}

/// A JSON body paired with the HTTP status code it is sent with.
#[derive(Debug)]
pub struct JsonResponse<T> {
    pub json: T,
    pub status: u16,
}

/// A successful response: either a bare status or a status with a JSON body.
#[derive(Debug)]
pub enum Response<T> {
    Success(u16),
    SuccessWithBody(JsonResponse<T>),
}

/// A failed response: either a bare status or a status with an error body.
#[derive(Debug)]
pub enum Error {
    ErrorWithBody(JsonResponse<ErrorResponse>),
    Error(u16),
}

/// The sequence of error-code strings carried by an error response body, as
/// mathematical sequences of characters.
pub open spec fn spec_codes(codes: Vec<String>) -> Seq<Seq<char>> {
    codes@.map_values(|s: String| s@)
}

/// Holds when `r` is a bare error with the given status and no body.
pub open spec fn is_plain_error(r: Error, status: u16) -> bool {
    r matches Error::Error(s) && s == status
}

/// Holds when `r` carries an error body with exactly the given codes, the
/// `RequestInvalid` classification and the given status.
pub open spec fn is_coded_error(r: Error, codes: Seq<Seq<char>>, status: u16) -> bool {
    &&& r matches Error::ErrorWithBody(j)
    &&& j.status == status
    &&& j.json.error_type matches Some(t) && t is RequestInvalid
    &&& j.json.error_codes matches Some(v) && spec_codes(v) == codes
}

impl Error {
    /// Builds an error response: with a code list and classification when one
    /// is supplied, as a bare status otherwise.
    pub fn error(error: Option<(Vec<String>, ErrorType)>, status: u16) -> (r: Self)
        ensures
            (match error {
                Some(e) => {
                    &&& r matches Error::ErrorWithBody(j)
                    &&& j.status == status
                    &&& j.json.error_codes matches Some(v) && v == e.0
                    &&& j.json.error_type matches Some(t) && t == e.1
                },
                None => is_plain_error(r, status),
            }),
    {
        match error {
            Some(e) => {
                let body = ErrorResponse { error_codes: Some(e.0), error_type: Some(e.1) };
                Self::ErrorWithBody(JsonResponse::new(body, status))
            },
            None => Self::Error(status),
        }
    }

    /// Wraps an already-built error body with a status code.
    pub fn error_with_body(json: ErrorResponse, status: u16) -> (r: Self)
        ensures
            r matches Error::ErrorWithBody(j) && (j.json == json && j.status == status),
    {
        Self::ErrorWithBody(JsonResponse::new(json, status))
    }

    /// The bare unauthorized error every credential failure is mapped to.
    pub fn unauthorized() -> (r: Self)
        ensures
            is_plain_error(r, STATUS_UNAUTHORIZED),
    {
        Error::Error(STATUS_UNAUTHORIZED)
    }
}

impl<T> Response<T> {
    /// Builds a success response: with the JSON body when one is supplied, as
    /// a bare status otherwise.
    pub fn success(json: Option<T>, status: u16) -> (r: Self)
        ensures
            (match json {
                Some(j) => {
                    &&& r matches Response::SuccessWithBody(b)
                    &&& b.json == j
                    &&& b.status == status
                },
                None => r matches Response::Success(s) && s == status,
            }),
    {
        match json {
            Some(j) => Self::SuccessWithBody(JsonResponse::new(j, status)),
            None => Self::Success(status),
        }
    }
}

impl<T> JsonResponse<T> {
    /// Pairs a JSON body with a status code.
    pub fn new(json: T, status: u16) -> (r: JsonResponse<T>)
        ensures
            r.json == json,
            r.status == status,
    {
        JsonResponse { json, status }
    }
}

/// Body of a successful login or refresh: the access token and the number of
/// seconds it remains valid.
#[derive(Debug)]
pub struct TokenResponse {
    pub access_token: Option<String>,
    pub expires_in: Option<i64>,
}

impl TokenResponse {
    /// Builds the body of a successful token response.
    pub fn success(access_token: String, expires_in: i64) -> (r: Self)
        ensures
            r.access_token matches Some(t) && t == access_token,
            r.expires_in matches Some(e) && e == expires_in,
    {
        Self { access_token: Some(access_token), expires_in: Some(expires_in) }
    }
}

/// Shape of a request body that carries a bearer access token.
#[derive(Debug)]
pub struct TokenRequest<'a> {
    pub access_token: &'a str,
}

} // verus!
