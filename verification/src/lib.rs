//! A small client library for an OAuth2-style token service: it builds the
//! HTTP requests for issuing, validating and revoking bearer tokens against a
//! fixed authorization server, and decodes the JSON responses into typed
//! values. The HTTP transport itself is left to the caller; every function
//! here is a pure value-to-value computation with a verified contract.

use vstd::prelude::*;

pub mod decode;
pub mod json;
pub mod ops;
pub mod request;
pub mod text;

verus! {

/// The result of introspecting an existing access token.
#[derive(Debug, Clone, PartialEq, Eq)]
pub struct ValidatedToken {
    pub client_id: String,
    pub login: Option<String>,
    pub user_id: Option<String>,
    pub scopes: Vec<String>,
}

/// Mathematical model of a `ValidatedToken`.
pub struct ValidatedTokenView {
    pub client_id: Seq<char>,
    pub login: Option<Seq<char>>,
    pub user_id: Option<Seq<char>>,
    pub scopes: Seq<Seq<char>>,
}

impl View for ValidatedToken {
    type V = ValidatedTokenView;

    open spec fn view(&self) -> ValidatedTokenView {
        ValidatedTokenView {
            client_id: self.client_id@,
            login: match self.login {
                Option::None => Option::None,
                Option::Some(s) => Option::Some(s@),
            },
            user_id: match self.user_id {
                Option::None => Option::None,
                Option::Some(s) => Option::Some(s@),
            },
            scopes: self.scopes.deep_view(),
        }
    }
}

/// A client-credentials access grant issued by the authorization server.
#[derive(Debug, Clone, PartialEq, Eq)]
pub struct AppAccessToken {
    pub access_token: String,
    pub expires_in: usize,
    pub scope: Option<Vec<String>>,
    pub token_type: String,
}

/// Mathematical model of an `AppAccessToken`.
pub struct AppAccessTokenView {
    pub access_token: Seq<char>,
    pub expires_in: int,
    pub scope: Option<Seq<Seq<char>>>,
    pub token_type: Seq<char>,
}

impl View for AppAccessToken {
    type V = AppAccessTokenView;

    open spec fn view(&self) -> AppAccessTokenView {
        AppAccessTokenView {
            access_token: self.access_token@,
            expires_in: self.expires_in as int,
            scope: match self.scope {
                Option::None => Option::None,
                Option::Some(v) => Option::Some(v.deep_view()),
            },
            token_type: self.token_type@,
        }
    }
}

/// How an operation against the token service can fail.
///
/// `RequestError` is a transport-level failure: the request never produced a
/// response. `DecodeError` means a response arrived but its body did not have
/// the expected JSON shape; it keeps the HTTP status and the raw body so a
/// caller can tell a rejected token apart from a network failure.
#[derive(Debug, Clone, PartialEq, Eq)]
pub enum TokenError {
    RequestError { message: String },
    DecodeError { status: u16, body: String },
}

} // verus!
