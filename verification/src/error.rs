//! Errors of the service and how each one is shown to a client.
use vstd::prelude::*;
use vstd::string::StringExecFns;

verus! {

/// Every way a request can fail.
#[derive(Clone, Copy, Debug, PartialEq, Eq, Structural)]
pub enum Error {
    // -- Validation error
    BadRequest,
    // -- DB errors.
    FailToGetPool,
    FailInsertDB,
    FailDeleteDB,
    FailUpdateDB,
    FailCreatingFile,
    // -- Auth errors.
    PermissionDenied,
    TokenEncodingFail,
    AuthFailNoAuthTokenCookie,
    AuthFailTokenWrongFormat,
    AuthFailCtxNotInRequestExt,
    // -- Model errors.
    UserNotFound,
    BoardNotFound,
    InvitationNotFound,
    InvitationExpired,
}

/// The coarse error kind a client gets to see.
#[allow(non_camel_case_types)]
#[derive(Clone, Copy, Debug, PartialEq, Eq, Structural)]
pub enum ClientError {
    UNAUTHORIZED,
    NO_AUTH,
    INVALID_PARAMS,
    SERVICE_ERROR,
}

/// HTTP status codes the service answers errors with.
pub const STATUS_BAD_REQUEST: u16 = 400;
pub const STATUS_UNAUTHORIZED: u16 = 401;
pub const STATUS_FORBIDDEN: u16 = 403;
pub const STATUS_NOT_FOUND: u16 = 404;
pub const STATUS_INTERNAL_SERVER_ERROR: u16 = 500;

/// The status code and client error of each error.
pub open spec fn spec_client_status_and_error(e: Error) -> (u16, ClientError) {
    match e {
        Error::FailToGetPool | Error::FailInsertDB | Error::FailDeleteDB | Error::FailUpdateDB
        | Error::FailCreatingFile => (STATUS_INTERNAL_SERVER_ERROR, ClientError::SERVICE_ERROR),
        Error::UserNotFound | Error::InvitationNotFound | Error::BoardNotFound => (
            STATUS_NOT_FOUND,
            ClientError::INVALID_PARAMS,
        ),
        Error::TokenEncodingFail | Error::AuthFailNoAuthTokenCookie
        | Error::AuthFailTokenWrongFormat | Error::AuthFailCtxNotInRequestExt => (
            STATUS_UNAUTHORIZED,
            ClientError::NO_AUTH,
        ),
        Error::PermissionDenied => (STATUS_FORBIDDEN, ClientError::NO_AUTH),
        Error::InvitationExpired | Error::BadRequest => (
            STATUS_BAD_REQUEST,
            ClientError::INVALID_PARAMS,
        ),
    }
}

impl Error {
    /// The HTTP status and the client-facing error of this error.
    pub fn client_status_and_error(&self) -> (r: (u16, ClientError))
        ensures
            r == spec_client_status_and_error(*self),
    {
        match self {
            Error::FailToGetPool | Error::FailInsertDB | Error::FailDeleteDB | Error::FailUpdateDB
            | Error::FailCreatingFile => (STATUS_INTERNAL_SERVER_ERROR, ClientError::SERVICE_ERROR),
            Error::UserNotFound | Error::InvitationNotFound | Error::BoardNotFound => (
                STATUS_NOT_FOUND,
                ClientError::INVALID_PARAMS,
            ),
            Error::TokenEncodingFail | Error::AuthFailNoAuthTokenCookie
            | Error::AuthFailTokenWrongFormat | Error::AuthFailCtxNotInRequestExt => (
                STATUS_UNAUTHORIZED,
                ClientError::NO_AUTH,
            ),
            Error::PermissionDenied => (STATUS_FORBIDDEN, ClientError::NO_AUTH),
            Error::InvitationExpired | Error::BadRequest => (
                STATUS_BAD_REQUEST,
                ClientError::INVALID_PARAMS,
            ),
        }
    }
}

/// The name a client error is reported under.
pub open spec fn client_error_name(c: ClientError) -> Seq<char> {
    match c {
        ClientError::UNAUTHORIZED => "UNAUTHORIZED"@,
        ClientError::NO_AUTH => "NO_AUTH"@,
        ClientError::INVALID_PARAMS => "INVALID_PARAMS"@,
        ClientError::SERVICE_ERROR => "SERVICE_ERROR"@,
    }
}

/// The JSON body an error is answered with: `{"error":"<name>"}`.
pub open spec fn error_body_text(c: ClientError) -> Seq<char> {
    "{\"error\":\""@ + client_error_name(c) + "\"}"@
}

impl ClientError {
    /// The name of this client error.
    pub fn name(&self) -> (r: String)
        ensures
            r@ == client_error_name(*self),
    {
        match self {
            ClientError::UNAUTHORIZED => String::from_str("UNAUTHORIZED"),
            ClientError::NO_AUTH => String::from_str("NO_AUTH"),
            ClientError::INVALID_PARAMS => String::from_str("INVALID_PARAMS"),
            ClientError::SERVICE_ERROR => String::from_str("SERVICE_ERROR"),
        }
    }
}

impl Error {
    /// The HTTP status and JSON body this error is answered with.
    pub fn response(&self) -> (r: (u16, String))
        ensures
            r.0 == spec_client_status_and_error(*self).0,
            r.1@ == error_body_text(spec_client_status_and_error(*self).1),
    {
        let (status, client_error) = self.client_status_and_error();
        let mut body = String::from_str("{\"error\":\"");
        let name = client_error.name();
        body.append(name.as_str());
        body.append("\"}");
        (status, body)
    }
}

} // verus!

verus! {

/// The body an error is reported with, tagged with the request's id:
/// `{"error":{"req_uuid":"<id>","type":"<name>"}}` (keys in the order JSON
/// objects are written in).
pub open spec fn tagged_error_body(c: ClientError, req_uuid: Seq<char>) -> Seq<char> {
    "{\"error\":{\"req_uuid\":\""@ + req_uuid + "\",\"type\":\""@ + client_error_name(c) + "\"}}"@
}

/// The body reporting client error `c` for the request `req_uuid`.
pub fn tagged_error_response(c: ClientError, req_uuid: &str) -> (r: String)
    ensures
        r@ == tagged_error_body(c, req_uuid@),
{
    let mut body = String::from_str("{\"error\":{\"req_uuid\":\"");
    body.append(req_uuid);
    body.append("\",\"type\":\"");
    let name = c.name();
    body.append(name.as_str());
    body.append("\"}}");
    body
}

impl Error {
    /// The status and body of this error, reported under a fresh request id.
    pub fn mapped_response(&self) -> (r: (u16, String))
        ensures
            r.0 == spec_client_status_and_error(*self).0,
            exists|id: Seq<char>|
                crate::random::is_hyphenated_v4(id) && r.1@ == #[trigger] tagged_error_body(
                    spec_client_status_and_error(*self).1,
                    id,
                ),
    {
        let id = crate::random::random_uuid();
        let (status, client_error) = self.client_status_and_error();
        let body = tagged_error_response(client_error, id.as_str());
        (status, body)
    }
}

} // verus!
