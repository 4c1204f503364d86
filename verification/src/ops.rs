//! The outcome of each operation, as a function of what the transport
//! reported. A transport hands back either a status code with the response
//! body, or a failure message; these functions turn that into the operation's
//! typed result. Together with the request builders they are the whole of
//! each operation — sending the bytes is all that is left to the caller.

use vstd::prelude::*;

use crate::decode::{
    app_token_decode_post, decode_app_access_token, decode_validated_token, is_request_error,
    validated_token_decode_post,
};
use crate::{AppAccessToken, TokenError, ValidatedToken};

verus! {

/// The result of the client-credentials operations: a transport failure is
/// reported as `RequestError`; otherwise the body decodes into the token or
/// the failure records the status and the raw body.
pub fn app_access_token_outcome(transport: Result<(u16, String), String>) -> (r: Result<
    AppAccessToken,
    TokenError,
>)
    ensures
        match transport {
            Result::Ok(sb) => app_token_decode_post(sb.0, sb.1@, r),
            Result::Err(m) => r matches Result::Err(e) && is_request_error(e, m@),
        },
{
    match transport {
        Result::Ok((status, body)) => decode_app_access_token(status, body.as_str()),
        Result::Err(message) => Result::Err(TokenError::RequestError { message }),
    }
}

/// The result of the validation operation, formed like
/// `app_access_token_outcome`.
pub fn validated_token_outcome(transport: Result<(u16, String), String>) -> (r: Result<
    ValidatedToken,
    TokenError,
>)
    ensures
        match transport {
            Result::Ok(sb) => validated_token_decode_post(sb.0, sb.1@, r),
            Result::Err(m) => r matches Result::Err(e) && is_request_error(e, m@),
        },
{
    match transport {
        Result::Ok((status, body)) => decode_validated_token(status, body.as_str()),
        Result::Err(message) => Result::Err(TokenError::RequestError { message }),
    }
}

/// The result of the revocation operation. Law: whatever status code the
/// transport echoes comes back unchanged — a received status, even 4xx or
/// 5xx, is never an error; only a transport failure yields `RequestError`.
pub fn revoke_outcome(transport: Result<u16, String>) -> (r: Result<u16, TokenError>)
    ensures
        match transport {
            Result::Ok(status) => r == Result::<u16, TokenError>::Ok(status),
            Result::Err(m) => r matches Result::Err(e) && is_request_error(e, m@),
        },
{
    match transport {
        Result::Ok(status) => Result::Ok(status),
        Result::Err(message) => Result::Err(TokenError::RequestError { message }),
    }
}

} // verus!
