use twitch_oauth::decode::{decode_app_access_token, decode_validated_token};
use twitch_oauth::ops::{app_access_token_outcome, revoke_outcome, validated_token_outcome};
use twitch_oauth::request::{
    app_access_token_request, app_access_token_request_with_scopes, join_scopes,
    revoke_token_request, validate_token_request, HttpMethod,
};
use twitch_oauth::{AppAccessToken, TokenError, ValidatedToken};

#[test]
fn app_token_request_query_has_exactly_the_three_parameters() {
    let req = app_access_token_request("id", "secret");
    assert_eq!(req.method, HttpMethod::Post);
    assert!(req.headers.is_empty());
    assert_eq!(
        req.url,
        "https://id.twitch.tv/oauth2/token?grant_type=client_credentials&client_id=id&client_secret=secret"
    );
    assert!(!req.url.contains("scope"));
}

#[test]
fn app_token_request_percent_encodes_credentials() {
    let req = app_access_token_request("my id", "s3 cr:et&x=y");
    assert_eq!(
        req.url,
        "https://id.twitch.tv/oauth2/token?grant_type=client_credentials&client_id=my+id&client_secret=s3+cr%3Aet%26x%3Dy"
    );
}

#[test]
fn scoped_request_joins_scopes_with_spaces_in_order() {
    let scopes = vec!["user:read:email".to_string(), "chat:edit".to_string()];
    let req = app_access_token_request_with_scopes("id", "secret", scopes);
    assert_eq!(req.method, HttpMethod::Post);
    assert_eq!(
        req.url,
        "https://id.twitch.tv/oauth2/token?grant_type=client_credentials&client_id=id&client_secret=secret&scope=user%3Aread%3Aemail+chat%3Aedit"
    );
}

#[test]
fn empty_scope_list_still_sends_an_empty_scope_parameter() {
    let req = app_access_token_request_with_scopes("id", "secret", Vec::new());
    assert_eq!(
        req.url,
        "https://id.twitch.tv/oauth2/token?grant_type=client_credentials&client_id=id&client_secret=secret&scope="
    );
}

#[test]
fn join_scopes_single_and_many() {
    assert_eq!(join_scopes(&vec![]), "");
    assert_eq!(join_scopes(&vec!["a".to_string()]), "a");
    assert_eq!(
        join_scopes(&vec!["a".to_string(), "b".to_string(), "c".to_string()]),
        "a b c"
    );
}

#[test]
fn validate_request_carries_the_oauth_authorization_header() {
    let req = validate_token_request("abc123");
    assert_eq!(req.method, HttpMethod::Get);
    assert_eq!(req.url, "https://id.twitch.tv/oauth2/validate");
    assert_eq!(
        req.headers,
        vec![("authorization".to_string(), "OAuth abc123".to_string())]
    );
}

#[test]
fn revoke_request_query_carries_token_and_client_id() {
    let req = revoke_token_request("tok/en", "id");
    assert_eq!(req.method, HttpMethod::Post);
    assert!(req.headers.is_empty());
    assert_eq!(
        req.url,
        "https://id.twitch.tv/oauth2/revoke?token=tok%2Fen&client_id=id"
    );
}

#[test]
fn decoding_a_token_with_null_scope_yields_no_scope_list() {
    let body = "{\"access_token\":\"x\",\"expires_in\":3600,\"scope\":null,\"token_type\":\"bearer\"}";
    let token = decode_app_access_token(200, body).unwrap();
    assert_eq!(
        token,
        AppAccessToken {
            access_token: "x".to_string(),
            expires_in: 3600,
            scope: None,
            token_type: "bearer".to_string(),
        }
    );
}

#[test]
fn decoding_a_token_without_a_scope_field_yields_no_scope_list() {
    let body = "{\"access_token\":\"x\",\"expires_in\":0,\"token_type\":\"bearer\"}";
    let token = decode_app_access_token(200, body).unwrap();
    assert_eq!(token.scope, None);
    assert_eq!(token.expires_in, 0);
}

#[test]
fn decoding_a_token_with_scopes_keeps_them_in_order() {
    let body = "{\"access_token\":\"x\",\"expires_in\":60,\"scope\":[\"b\",\"a\"],\"token_type\":\"bearer\"}";
    let token = decode_app_access_token(200, body).unwrap();
    assert_eq!(token.scope, Some(vec!["b".to_string(), "a".to_string()]));
}

#[test]
fn decoding_a_body_missing_access_token_fails_with_decode_error() {
    let body = "{\"expires_in\":3600,\"scope\":null,\"token_type\":\"bearer\"}";
    let err = decode_app_access_token(200, body).unwrap_err();
    assert_eq!(
        err,
        TokenError::DecodeError {
            status: 200,
            body: body.to_string(),
        }
    );
}

#[test]
fn decoding_a_token_with_a_wrongly_typed_field_fails() {
    let body = "{\"access_token\":\"x\",\"expires_in\":\"soon\",\"token_type\":\"bearer\"}";
    assert!(decode_app_access_token(200, body).is_err());
    let body2 = "{\"access_token\":\"x\",\"expires_in\":-5,\"token_type\":\"bearer\"}";
    assert!(decode_app_access_token(200, body2).is_err());
    let body3 = "{\"access_token\":\"x\",\"expires_in\":60,\"scope\":[\"a\",7],\"token_type\":\"b\"}";
    assert!(decode_app_access_token(200, body3).is_err());
}

#[test]
fn decoding_a_non_json_body_records_status_and_body() {
    let err = decode_app_access_token(502, "Bad Gateway").unwrap_err();
    assert_eq!(
        err,
        TokenError::DecodeError {
            status: 502,
            body: "Bad Gateway".to_string(),
        }
    );
}

#[test]
fn decoding_a_validated_token_reads_all_fields() {
    let body = "{\"client_id\":\"cid\",\"login\":\"someone\",\"user_id\":\"1234\",\"scopes\":[\"chat:read\",\"chat:edit\"]}";
    let token = decode_validated_token(200, body).unwrap();
    assert_eq!(
        token,
        ValidatedToken {
            client_id: "cid".to_string(),
            login: Some("someone".to_string()),
            user_id: Some("1234".to_string()),
            scopes: vec!["chat:read".to_string(), "chat:edit".to_string()],
        }
    );
}

#[test]
fn decoding_an_app_only_validated_token_leaves_login_and_user_absent() {
    let body = "{\"client_id\":\"cid\",\"login\":null,\"scopes\":[]}";
    let token = decode_validated_token(200, body).unwrap();
    assert_eq!(token.login, None);
    assert_eq!(token.user_id, None);
    assert!(token.scopes.is_empty());
}

#[test]
fn decoding_a_validated_token_without_client_id_fails() {
    let body = "{\"login\":\"someone\",\"scopes\":[]}";
    let err = decode_validated_token(401, body).unwrap_err();
    assert_eq!(
        err,
        TokenError::DecodeError {
            status: 401,
            body: body.to_string(),
        }
    );
}

#[test]
fn token_outcome_reports_transport_failure_as_request_error() {
    let r = app_access_token_outcome(Err("connection refused".to_string()));
    assert_eq!(
        r.unwrap_err(),
        TokenError::RequestError {
            message: "connection refused".to_string(),
        }
    );
    let v = validated_token_outcome(Err("dns failure".to_string()));
    assert_eq!(
        v.unwrap_err(),
        TokenError::RequestError {
            message: "dns failure".to_string(),
        }
    );
}

#[test]
fn token_outcome_decodes_a_successful_body() {
    let body = "{\"access_token\":\"t\",\"expires_in\":1,\"token_type\":\"bearer\"}";
    let r = app_access_token_outcome(Ok((200, body.to_string()))).unwrap();
    assert_eq!(r.access_token, "t");
}

#[test]
fn revocation_echoes_every_received_status() {
    for status in [200u16, 204, 400, 404, 500, 599] {
        assert_eq!(revoke_outcome(Ok(status)), Ok(status));
    }
}

#[test]
fn revocation_reports_only_transport_failure_as_error() {
    let r = revoke_outcome(Err("connection reset".to_string()));
    assert_eq!(
        r.unwrap_err(),
        TokenError::RequestError {
            message: "connection reset".to_string(),
        }
    );
}

#[test]
fn describe_renders_an_app_access_token() {
    let token = AppAccessToken {
        access_token: "x".to_string(),
        expires_in: 3600,
        scope: Some(vec!["a".to_string(), "b".to_string()]),
        token_type: "bearer".to_string(),
    };
    assert_eq!(
        token.describe(),
        "access_token: x\nexpires_in: 3600\ntoken_type: bearer\nscope: a b\n"
    );
    let bare = AppAccessToken { scope: None, ..token };
    assert_eq!(
        bare.describe(),
        "access_token: x\nexpires_in: 3600\ntoken_type: bearer\nscope: none\n"
    );
}

#[test]
fn describe_renders_a_validated_token() {
    let token = ValidatedToken {
        client_id: "cid".to_string(),
        login: None,
        user_id: Some("42".to_string()),
        scopes: vec!["chat:read".to_string()],
    };
    assert_eq!(
        token.describe(),
        "client_id: cid\nlogin: none\nuser_id: 42\nscopes: chat:read\n"
    );
}
