//! Verified decoding of the token service's JSON responses. The shape of
//! each response is stated as a spec function over the parsed JSON tree; the
//! executable decoders are proved to accept exactly the bodies of that shape
//! and to reject every other body, never substituting defaults.

use vstd::prelude::*;

use crate::json::{parse_json, spec_parse_json, JsonValue};
use crate::{AppAccessToken, AppAccessTokenView, TokenError, ValidatedToken, ValidatedTokenView};

verus! {

/// The value of the first field named `key` in an object's field list, if any.
pub open spec fn field_of(fields: Seq<(String, JsonValue)>, key: Seq<char>) -> Option<JsonValue>
    decreases fields.len(),
{
    if fields.len() == 0 {
        Option::None
    } else if fields[0].0@ == key {
        Option::Some(fields[0].1)
    } else {
        field_of(fields.drop_first(), key)
    }
}

/// Every element of the sequence is a JSON string.
pub open spec fn all_strings(items: Seq<JsonValue>) -> bool {
    forall|i: int| 0 <= i < items.len() ==> items[i] is Str
}

/// The character sequences of a sequence of JSON strings.
pub open spec fn strings_of(items: Seq<JsonValue>) -> Seq<Seq<char>> {
    Seq::new(items.len(), |i: int| items[i]->Str_0@)
}

/// How an optional-list field such as `scope` reads: absent or `null` mean no
/// list was granted, an array of strings is the list, anything else is a
/// shape error (`None`).
pub open spec fn scope_field_model(f: Option<JsonValue>) -> Option<Option<Seq<Seq<char>>>> {
    match f {
        Option::None => Option::Some(Option::None),
        Option::Some(JsonValue::Null) => Option::Some(Option::None),
        Option::Some(JsonValue::Arr(items)) => if all_strings(items@) {
            Option::Some(Option::Some(strings_of(items@)))
        } else {
            Option::None
        },
        Option::Some(_) => Option::None,
    }
}

/// How an optional-string field such as `login` reads: absent or `null` mean
/// no value, a string is the value, anything else is a shape error (`None`).
pub open spec fn optional_string_model(f: Option<JsonValue>) -> Option<Option<Seq<char>>> {
    match f {
        Option::None => Option::Some(Option::None),
        Option::Some(JsonValue::Null) => Option::Some(Option::None),
        Option::Some(JsonValue::Str(s)) => Option::Some(Option::Some(s@)),
        Option::Some(_) => Option::None,
    }
}

/// The token-issuance response shape: an object with `access_token` (string),
/// `expires_in` (unsigned integer), `token_type` (string) and an optional
/// `scope` (array of strings or `null`). Any other document is rejected.
pub open spec fn spec_app_access_token_of(v: JsonValue) -> Option<AppAccessTokenView> {
    match v {
        JsonValue::Obj(fields) => match (
            field_of(fields@, "access_token"@),
            field_of(fields@, "expires_in"@),
            field_of(fields@, "token_type"@),
        ) {
            (
                Option::Some(JsonValue::Str(at)),
                Option::Some(JsonValue::UInt(e)),
                Option::Some(JsonValue::Str(tt)),
            ) => match scope_field_model(field_of(fields@, "scope"@)) {
                Option::Some(sc) => if e <= usize::MAX {
                    Option::Some(
                        AppAccessTokenView {
                            access_token: at@,
                            expires_in: e as int,
                            scope: sc,
                            token_type: tt@,
                        },
                    )
                } else {
                    Option::None
                },
                Option::None => Option::None,
            },
            _ => Option::None,
        },
        _ => Option::None,
    }
}

/// The token-introspection response shape: an object with `client_id`
/// (string), `scopes` (array of strings) and optional `login` and `user_id`
/// (string or `null`). Any other document is rejected.
pub open spec fn spec_validated_token_of(v: JsonValue) -> Option<ValidatedTokenView> {
    match v {
        JsonValue::Obj(fields) => match (
            field_of(fields@, "client_id"@),
            optional_string_model(field_of(fields@, "login"@)),
            optional_string_model(field_of(fields@, "user_id"@)),
            field_of(fields@, "scopes"@),
        ) {
            (
                Option::Some(JsonValue::Str(cid)),
                Option::Some(lg),
                Option::Some(uid),
                Option::Some(JsonValue::Arr(items)),
            ) => if all_strings(items@) {
                Option::Some(
                    ValidatedTokenView {
                        client_id: cid@,
                        login: lg,
                        user_id: uid,
                        scopes: strings_of(items@),
                    },
                )
            } else {
                Option::None
            },
            _ => Option::None,
        },
        _ => Option::None,
    }
}

/// `e` is the decode failure recorded for `status` and `body`.
pub open spec fn is_decode_error(e: TokenError, status: u16, body: Seq<char>) -> bool {
    &&& e matches TokenError::DecodeError { status: st, body: b }
    &&& st == status
    &&& b@ == body
}

/// `e` is the transport failure carrying `message`.
pub open spec fn is_request_error(e: TokenError, message: Seq<char>) -> bool {
    &&& e matches TokenError::RequestError { message: m }
    &&& m@ == message
}

/// What decoding a token-issuance body must return: the decoded token when
/// the body parses and has the expected shape, otherwise the decode failure
/// recording `status` and the body.
pub open spec fn app_token_decode_post(
    status: u16,
    body: Seq<char>,
    r: Result<AppAccessToken, TokenError>,
) -> bool {
    match spec_parse_json(body) {
        Option::Some(v) => match spec_app_access_token_of(v) {
            Option::Some(m) => r matches Result::Ok(t) && t@ == m,
            Option::None => r matches Result::Err(e) && is_decode_error(e, status, body),
        },
        Option::None => r matches Result::Err(e) && is_decode_error(e, status, body),
    }
}

/// What decoding a token-introspection body must return, as above.
pub open spec fn validated_token_decode_post(
    status: u16,
    body: Seq<char>,
    r: Result<ValidatedToken, TokenError>,
) -> bool {
    match spec_parse_json(body) {
        Option::Some(v) => match spec_validated_token_of(v) {
            Option::Some(m) => r matches Result::Ok(t) && t@ == m,
            Option::None => r matches Result::Err(e) && is_decode_error(e, status, body),
        },
        Option::None => r matches Result::Err(e) && is_decode_error(e, status, body),
    }
}

proof fn lemma_field_of_skip(fields: Seq<(String, JsonValue)>, key: Seq<char>, i: int)
    requires
        0 <= i <= fields.len(),
        forall|j: int| 0 <= j < i ==> fields[j].0@ != key,
    ensures
        field_of(fields, key) == field_of(fields.skip(i), key),
    decreases i,
{
    if i > 0 {
        assert(fields[0].0@ != key);
        lemma_field_of_skip(fields.drop_first(), key, i - 1);
        assert(fields.drop_first().skip(i - 1) =~= fields.skip(i));
    } else {
        assert(fields.skip(0) =~= fields);
    }
}

/// The first field named `key`, as `field_of` reads it.
fn field_lookup<'a>(fields: &'a Vec<(String, JsonValue)>, key: &String) -> (r: Option<
    &'a JsonValue,
>)
    ensures
        match field_of(fields@, key@) {
            Option::Some(v) => r matches Option::Some(f) && *f == v,
            Option::None => r is None,
        },
{
    let n = fields.len();
    let mut i: usize = 0;
    while i < n
        invariant
            n == fields@.len(),
            0 <= i <= n,
            forall|j: int| 0 <= j < i ==> fields@[j].0@ != key@,
        decreases n - i,
    {
        if fields[i].0 == *key {
            proof {
                lemma_field_of_skip(fields@, key@, i as int);
                assert(fields@.skip(i as int)[0] == fields@[i as int]);
            }
            return Option::Some(&fields[i].1);
        }
        i = i + 1;
    }
    proof {
        lemma_field_of_skip(fields@, key@, n as int);
    }
    Option::None
}

/// The strings of a JSON array, or `None` if any element is not a string.
fn string_items_of(items: &Vec<JsonValue>) -> (r: Option<Vec<String>>)
    ensures
        if all_strings(items@) {
            r matches Option::Some(ss) && ss.deep_view() == strings_of(items@)
        } else {
            r is None
        },
{
    let n = items.len();
    let mut out: Vec<String> = Vec::new();
    let mut i: usize = 0;
    while i < n
        invariant
            n == items@.len(),
            0 <= i <= n,
            forall|j: int| 0 <= j < i ==> items@[j] is Str,
            out.deep_view() == strings_of(items@.take(i as int)),
        decreases n - i,
    {
        match &items[i] {
            JsonValue::Str(s) => {
                let ghost prev = out.deep_view();
                out.push(s.clone());
                proof {
                    assert(out.deep_view() =~= prev.push(items@[i as int]->Str_0@));
                    assert(items@.take(i as int + 1) =~= items@.take(i as int).push(
                        items@[i as int],
                    ));
                    assert(strings_of(items@.take(i as int + 1)) =~= strings_of(
                        items@.take(i as int),
                    ).push(items@[i as int]->Str_0@));
                }
            },
            _ => {
                proof {
                    assert(!(items@[i as int] is Str));
                }
                return Option::None;
            },
        }
        i = i + 1;
    }
    proof {
        assert(items@.take(n as int) =~= items@);
    }
    Option::Some(out)
}

/// Reads a token-issuance document into an `AppAccessToken`; returns `None`
/// exactly when the document does not have the expected shape.
pub fn app_access_token_from_json(v: &JsonValue) -> (r: Option<AppAccessToken>)
    ensures
        match spec_app_access_token_of(*v) {
            Option::Some(m) => r matches Option::Some(t) && t@ == m,
            Option::None => r is None,
        },
{
    match v {
        JsonValue::Obj(fields) => {
            let at = match field_lookup(fields, &"access_token".to_owned()) {
                Option::Some(JsonValue::Str(s)) => s.clone(),
                _ => {
                    return Option::None;
                },
            };
            let e = match field_lookup(fields, &"expires_in".to_owned()) {
                Option::Some(JsonValue::UInt(u)) => *u,
                _ => {
                    return Option::None;
                },
            };
            let tt = match field_lookup(fields, &"token_type".to_owned()) {
                Option::Some(JsonValue::Str(s)) => s.clone(),
                _ => {
                    return Option::None;
                },
            };
            let sc: Option<Vec<String>> = match field_lookup(fields, &"scope".to_owned()) {
                Option::None => Option::None,
                Option::Some(JsonValue::Null) => Option::None,
                Option::Some(JsonValue::Arr(items)) => match string_items_of(items) {
                    Option::Some(ss) => Option::Some(ss),
                    Option::None => {
                        return Option::None;
                    },
                },
                Option::Some(_) => {
                    return Option::None;
                },
            };
            if e <= usize::MAX as u64 {
                Option::Some(
                    AppAccessToken {
                        access_token: at,
                        expires_in: e as usize,
                        scope: sc,
                        token_type: tt,
                    },
                )
            } else {
                Option::None
            }
        },
        _ => Option::None,
    }
}

/// Reads a token-introspection document into a `ValidatedToken`; returns
/// `None` exactly when the document does not have the expected shape.
pub fn validated_token_from_json(v: &JsonValue) -> (r: Option<ValidatedToken>)
    ensures
        match spec_validated_token_of(*v) {
            Option::Some(m) => r matches Option::Some(t) && t@ == m,
            Option::None => r is None,
        },
{
    match v {
        JsonValue::Obj(fields) => {
            let cid = match field_lookup(fields, &"client_id".to_owned()) {
                Option::Some(JsonValue::Str(s)) => s.clone(),
                _ => {
                    return Option::None;
                },
            };
            let lg: Option<String> = match field_lookup(fields, &"login".to_owned()) {
                Option::None => Option::None,
                Option::Some(JsonValue::Null) => Option::None,
                Option::Some(JsonValue::Str(s)) => Option::Some(s.clone()),
                Option::Some(_) => {
                    return Option::None;
                },
            };
            let uid: Option<String> = match field_lookup(fields, &"user_id".to_owned()) {
                Option::None => Option::None,
                Option::Some(JsonValue::Null) => Option::None,
                Option::Some(JsonValue::Str(s)) => Option::Some(s.clone()),
                Option::Some(_) => {
                    return Option::None;
                },
            };
            let scopes = match field_lookup(fields, &"scopes".to_owned()) {
                Option::Some(JsonValue::Arr(items)) => match string_items_of(items) {
                    Option::Some(ss) => ss,
                    Option::None => {
                        return Option::None;
                    },
                },
                _ => {
                    return Option::None;
                },
            };
            Option::Some(ValidatedToken { client_id: cid, login: lg, user_id: uid, scopes })
        },
        _ => Option::None,
    }
}

/// Decodes a token-issuance response body, recording `status` and the raw
/// body on failure.
pub fn decode_app_access_token(status: u16, body: &str) -> (r: Result<AppAccessToken, TokenError>)
    ensures
        app_token_decode_post(status, body@, r),
{
    match parse_json(body) {
        Option::Some(v) => match app_access_token_from_json(&v) {
            Option::Some(t) => Result::Ok(t),
            Option::None => Result::Err(TokenError::DecodeError { status, body: body.to_owned() }),
        },
        Option::None => Result::Err(TokenError::DecodeError { status, body: body.to_owned() }),
    }
}

/// Decodes a token-introspection response body, recording `status` and the
/// raw body on failure.
pub fn decode_validated_token(status: u16, body: &str) -> (r: Result<ValidatedToken, TokenError>)
    ensures
        validated_token_decode_post(status, body@, r),
{
    match parse_json(body) {
        Option::Some(v) => match validated_token_from_json(&v) {
            Option::Some(t) => Result::Ok(t),
            Option::None => Result::Err(TokenError::DecodeError { status, body: body.to_owned() }),
        },
        Option::None => Result::Err(TokenError::DecodeError { status, body: body.to_owned() }),
    }
}

/// Law: a token-issuance document with no `access_token` field never decodes
/// to a token, whatever its other fields hold; nor does any document that is
/// not an object.
pub proof fn lemma_missing_access_token_rejected(v: JsonValue)
    requires
        match v {
            JsonValue::Obj(fields) => field_of(fields@, "access_token"@) is None,
            _ => true,
        },
    ensures
        spec_app_access_token_of(v) is None,
{
}

} // verus!
