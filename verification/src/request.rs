//! Outbound requests to the authorization server: a plain request model, the
//! fixed endpoints, and verified construction of each operation's query
//! string. Percent-encoding and URL assembly are done by the `url` crate
//! behind one trusted wrapper; everything placed into the query, and the
//! order it appears in, is verified here.

use vstd::prelude::*;
use vstd::string::StringExecFns;

verus! {

#[derive(Debug, Clone, Copy, PartialEq, Eq, Structural)]
pub enum HttpMethod {
    Get,
    Post,
}

/// An HTTP request, ready for a transport to send: the URL already carries
/// the percent-encoded query.
#[derive(Debug)]
pub struct HttpRequest {
    pub method: HttpMethod,
    pub url: String,
    pub headers: Vec<(String, String)>,
}

/// What the `application/x-www-form-urlencoded` byte serializer of the `url`
/// crate returns for a string: a function of the characters alone. Nothing
/// further is assumed of it.
pub uninterp spec fn form_encoded(s: Seq<char>) -> Seq<char>;

/// One encoded `key=value` pair.
pub open spec fn spec_pair(k: Seq<char>, v: Seq<char>) -> Seq<char> {
    form_encoded(k) + "="@ + form_encoded(v)
}

/// The encoded pairs joined with `&`, in order.
pub open spec fn spec_query(pairs: Seq<(Seq<char>, Seq<char>)>) -> Seq<char>
    decreases pairs.len(),
{
    if pairs.len() == 0 {
        Seq::empty()
    } else if pairs.len() == 1 {
        spec_pair(pairs[0].0, pairs[0].1)
    } else {
        spec_query(pairs.drop_last()) + "&"@ + spec_pair(pairs.last().0, pairs.last().1)
    }
}

/// Scope names joined with a single space, in input order.
pub open spec fn spec_join_scopes(ss: Seq<Seq<char>>) -> Seq<char>
    decreases ss.len(),
{
    if ss.len() == 0 {
        Seq::empty()
    } else if ss.len() == 1 {
        ss[0]
    } else {
        spec_join_scopes(ss.drop_last()) + " "@ + ss.last()
    }
}

pub open spec fn spec_token_url() -> Seq<char> {
    "https://id.twitch.tv/oauth2/token"@
}

pub open spec fn spec_validate_url() -> Seq<char> {
    "https://id.twitch.tv/oauth2/validate"@
}

pub open spec fn spec_revoke_url() -> Seq<char> {
    "https://id.twitch.tv/oauth2/revoke"@
}

pub fn token_url() -> (r: &'static str)
    ensures
        r@ == spec_token_url(),
{
    "https://id.twitch.tv/oauth2/token"
}

pub fn validate_url() -> (r: &'static str)
    ensures
        r@ == spec_validate_url(),
{
    "https://id.twitch.tv/oauth2/validate"
}

pub fn revoke_url() -> (r: &'static str)
    ensures
        r@ == spec_revoke_url(),
{
    "https://id.twitch.tv/oauth2/revoke"
}

/// Relies on `url::Url::parse_with_params`: parsing one of this library's
/// endpoint URLs (well-formed, already in canonical form, without a query)
/// cannot fail, and the pairs are appended after `?`, each as
/// `encoded(key)=encoded(value)` and joined with `&` in input order, where
/// the encoding is the `application/x-www-form-urlencoded` byte
/// serialization, written `form_encoded` here.
#[verifier::external_body]
fn url_with_params(base: &str, params: &Vec<(String, String)>) -> (r: String)
    requires
        base@ == spec_token_url() || base@ == spec_revoke_url(),
        params@.len() > 0,
    ensures
        r@ == base@ + "?"@ + spec_query(params.deep_view()),
        params@.len() == 1 ==> r@ == base@ + "?"@ + form_encoded(params.deep_view()[0].0) + "="@
            + form_encoded(params.deep_view()[0].1),
{
    let pairs = params.iter().map(|p| (p.0.as_str(), p.1.as_str()));
    let parsed = url::Url::parse_with_params(base, pairs).unwrap();
    parsed.as_str().to_owned()
}

/// The query pairs of a client-credentials token request.
pub open spec fn spec_app_token_pairs(client_id: Seq<char>, client_secret: Seq<char>) -> Seq<
    (Seq<char>, Seq<char>),
> {
    seq![
        ("grant_type"@, "client_credentials"@),
        ("client_id"@, client_id),
        ("client_secret"@, client_secret),
    ]
}

/// The query pairs of a scoped client-credentials token request: the same
/// three, followed by `scope` holding the space-joined scope list.
pub open spec fn spec_scoped_pairs(
    client_id: Seq<char>,
    client_secret: Seq<char>,
    scopes: Seq<Seq<char>>,
) -> Seq<(Seq<char>, Seq<char>)> {
    spec_app_token_pairs(client_id, client_secret) + seq![("scope"@, spec_join_scopes(scopes))]
}

/// The query pairs of a revocation request.
pub open spec fn spec_revoke_pairs(access_token: Seq<char>, client_id: Seq<char>) -> Seq<
    (Seq<char>, Seq<char>),
> {
    seq![("token"@, access_token), ("client_id"@, client_id)]
}

/// The scope list joined with single spaces, in input order.
pub fn join_scopes(scopes: &Vec<String>) -> (r: String)
    ensures
        r@ == spec_join_scopes(scopes.deep_view()),
{
    let n = scopes.len();
    let mut r = String::new();
    let mut i: usize = 0;
    while i < n
        invariant
            n == scopes@.len(),
            0 <= i <= n,
            r@ == spec_join_scopes(scopes.deep_view().take(i as int)),
        decreases n - i,
    {
        if i > 0 {
            r.append(" ");
        }
        r.append(scopes[i].as_str());
        i = i + 1;
        proof {
            let ss = scopes.deep_view();
            assert(ss.take(i as int).drop_last() =~= ss.take(i as int - 1));
            assert(ss.take(i as int).last() == ss[i as int - 1]);
        }
    }
    proof {
        assert(scopes.deep_view().take(n as int) =~= scopes.deep_view());
    }
    r
}

/// The client-credentials request: a POST to the token endpoint whose query
/// carries exactly `grant_type=client_credentials`, the client id and the
/// client secret, and no other parameter.
pub fn app_access_token_request(client_id: &str, client_secret: &str) -> (r: HttpRequest)
    ensures
        r.method == HttpMethod::Post,
        r.headers@.len() == 0,
        r.url@ == spec_token_url() + "?"@ + spec_query(
            spec_app_token_pairs(client_id@, client_secret@),
        ),
{
    let mut params: Vec<(String, String)> = Vec::new();
    params.push(("grant_type".to_owned(), "client_credentials".to_owned()));
    params.push(("client_id".to_owned(), client_id.to_owned()));
    params.push(("client_secret".to_owned(), client_secret.to_owned()));
    proof {
        assert(params.deep_view() =~= spec_app_token_pairs(client_id@, client_secret@));
    }
    let url = url_with_params(token_url(), &params);
    HttpRequest { method: HttpMethod::Post, url, headers: Vec::new() }
}

/// The scoped client-credentials request: as above, plus a `scope` parameter
/// holding the space-joined scope list — present, with an empty value, even
/// when the list is empty.
pub fn app_access_token_request_with_scopes(
    client_id: &str,
    client_secret: &str,
    scopes: Vec<String>,
) -> (r: HttpRequest)
    ensures
        r.method == HttpMethod::Post,
        r.headers@.len() == 0,
        r.url@ == spec_token_url() + "?"@ + spec_query(
            spec_scoped_pairs(client_id@, client_secret@, scopes.deep_view()),
        ),
{
    let joined = join_scopes(&scopes);
    let mut params: Vec<(String, String)> = Vec::new();
    params.push(("grant_type".to_owned(), "client_credentials".to_owned()));
    params.push(("client_id".to_owned(), client_id.to_owned()));
    params.push(("client_secret".to_owned(), client_secret.to_owned()));
    params.push(("scope".to_owned(), joined));
    proof {
        assert(params.deep_view() =~= spec_scoped_pairs(
            client_id@,
            client_secret@,
            scopes.deep_view(),
        ));
    }
    let url = url_with_params(token_url(), &params);
    HttpRequest { method: HttpMethod::Post, url, headers: Vec::new() }
}

/// The introspection request: a GET to the validation endpoint, no query,
/// and exactly one header, `authorization: OAuth <access_token>` — the
/// scheme token is literally `OAuth`, as this server requires.
pub fn validate_token_request(access_token: &str) -> (r: HttpRequest)
    ensures
        r.method == HttpMethod::Get,
        r.url@ == spec_validate_url(),
        r.headers.deep_view() == seq![("authorization"@, "OAuth "@ + access_token@)],
{
    let mut auth = "OAuth ".to_owned();
    auth.append(access_token);
    let mut headers: Vec<(String, String)> = Vec::new();
    headers.push(("authorization".to_owned(), auth));
    proof {
        assert(headers.deep_view() =~= seq![("authorization"@, "OAuth "@ + access_token@)]);
    }
    HttpRequest { method: HttpMethod::Get, url: validate_url().to_owned(), headers }
}

/// The revocation request: a POST to the revocation endpoint whose query
/// carries exactly the token and the client id.
pub fn revoke_token_request(access_token: &str, client_id: &str) -> (r: HttpRequest)
    ensures
        r.method == HttpMethod::Post,
        r.headers@.len() == 0,
        r.url@ == spec_revoke_url() + "?"@ + spec_query(
            spec_revoke_pairs(access_token@, client_id@),
        ),
{
    let mut params: Vec<(String, String)> = Vec::new();
    params.push(("token".to_owned(), access_token.to_owned()));
    params.push(("client_id".to_owned(), client_id.to_owned()));
    proof {
        assert(params.deep_view() =~= spec_revoke_pairs(access_token@, client_id@));
    }
    let url = url_with_params(revoke_url(), &params);
    HttpRequest { method: HttpMethod::Post, url, headers: Vec::new() }
}

/// Law: the client-credentials query names exactly `grant_type`, `client_id`
/// and `client_secret`, in that order, and none of its parameters is named
/// `scope`.
pub proof fn lemma_app_token_query_keys(client_id: Seq<char>, client_secret: Seq<char>)
    ensures
        spec_app_token_pairs(client_id, client_secret).len() == 3,
        spec_app_token_pairs(client_id, client_secret)[0] == ("grant_type"@,
        "client_credentials"@),
        spec_app_token_pairs(client_id, client_secret)[1] == ("client_id"@, client_id),
        spec_app_token_pairs(client_id, client_secret)[2] == ("client_secret"@, client_secret),
        forall|i: int|
            0 <= i < spec_app_token_pairs(client_id, client_secret).len() ==> spec_app_token_pairs(
                client_id,
                client_secret,
            )[i].0 != "scope"@,
{
    reveal_strlit("grant_type");
    reveal_strlit("client_id");
    reveal_strlit("client_secret");
    reveal_strlit("scope");
    assert("grant_type"@.len() == 10);
    assert("client_id"@.len() == 9);
    assert("client_secret"@.len() == 13);
    assert("scope"@.len() == 5);
    assert("grant_type"@ != "scope"@);
    assert("client_id"@ != "scope"@);
    assert("client_secret"@ != "scope"@);
    assert forall|i: int|
        0 <= i < spec_app_token_pairs(client_id, client_secret).len()
            implies spec_app_token_pairs(client_id, client_secret)[i].0
            != "scope"@ by {
        let pairs = spec_app_token_pairs(client_id, client_secret);
        assert(pairs[0].0 == "grant_type"@);
        assert(pairs[1].0 == "client_id"@);
        assert(pairs[2].0 == "client_secret"@);
    }
}

/// Law: the scoped query extends the client-credentials query by exactly one
/// parameter, `scope`, whose value is the scope list joined with single
/// spaces in input order.
pub proof fn lemma_scoped_query_scope_value(
    client_id: Seq<char>,
    client_secret: Seq<char>,
    scopes: Seq<Seq<char>>,
)
    ensures
        spec_scoped_pairs(client_id, client_secret, scopes).len() == 4,
        spec_scoped_pairs(client_id, client_secret, scopes).take(3) == spec_app_token_pairs(
            client_id,
            client_secret,
        ),
        spec_scoped_pairs(client_id, client_secret, scopes)[3] == ("scope"@, spec_join_scopes(
            scopes,
        )),
{
    assert(spec_scoped_pairs(client_id, client_secret, scopes).take(3) =~= spec_app_token_pairs(
        client_id,
        client_secret,
    ));
}

/// Law: with an empty scope list the `scope` parameter is still present, as
/// the last parameter, with an empty value — not omitted.
pub proof fn lemma_empty_scopes_parameter_present(client_id: Seq<char>, client_secret: Seq<char>)
    ensures
        spec_scoped_pairs(client_id, client_secret, Seq::empty()).len() == 4,
        spec_scoped_pairs(client_id, client_secret, Seq::empty()).last() == ("scope"@,
        Seq::<char>::empty()),
{
}

} // verus!
