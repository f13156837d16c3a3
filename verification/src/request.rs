//! Construction of the three HTTP requests.
//!
//! A request is a plain value: the transport URL-escapes the query pairs,
//! adds the one header when present, and performs the transfer.

use vstd::prelude::*;
use vstd::string::StringExecFns;
use crate::types::AppAccessToken;
use crate::types::string_views;

verus! {

#[derive(Debug, Clone, Copy, PartialEq, Eq, Structural)]
pub enum HttpMethod {
    Get,
    Post,
}

/// A fully determined HTTP request, before URL-encoding.
#[derive(Debug)]
pub struct HttpRequest {
    pub method: HttpMethod,
    pub url: String,
    /// Query parameters, in order, as unescaped key/value pairs.
    pub query: Vec<(String, String)>,
    /// The value of the Authorization header, when the request carries one.
    pub auth_header: Option<String>,
}

/// The given strings joined with a single space between neighbours.
pub open spec fn space_joined(items: Seq<Seq<char>>) -> Seq<char>
    decreases items.len(),
{
    if items.len() == 0 {
        Seq::empty()
    } else if items.len() == 1 {
        items[0]
    } else {
        space_joined(items.drop_last()) + seq![' '] + items.last()
    }
}

/// The value of the validation request's Authorization header: the literal
/// scheme prefix "OAuth", one space, then the access token.
pub open spec fn oauth_header(token: Seq<char>) -> Seq<char> {
    "OAuth "@ + token
}

/// Joins scope strings with single spaces, as the token endpoint's `scope`
/// query parameter wants them.
pub fn join_scopes(scopes: &Vec<String>) -> (r: String)
    ensures
        r@ == space_joined(string_views(scopes@)),
{
    let ghost vs = string_views(scopes@);
    let mut r = String::new();
    let mut i: usize = 0;
    while i < scopes.len()
        invariant
            i <= scopes.len(),
            vs == string_views(scopes@),
            vs.len() == scopes@.len(),
            r@ == space_joined(vs.subrange(0, i as int)),
        decreases scopes.len() - i,
    {
        if i > 0 {
            r.append(" ");
            proof {
                reveal_strlit(" ");
                assert(" "@ =~= seq![' ']);
            }
        }
        r.append(scopes[i].as_str());
        proof {
            let post = vs.subrange(0, i as int + 1);
            assert(post.drop_last() =~= vs.subrange(0, i as int));
            assert(post.last() == vs[i as int]);
            assert(r@ =~= space_joined(post));
        }
        i = i + 1;
    }
    proof {
        assert(vs.subrange(0, scopes@.len() as int) =~= vs);
    }
    r
}

/// Builds the client-credentials issuance request: a POST to the token
/// endpoint whose query carries the grant type, the client's credentials and
/// the space-joined scope list.
pub fn app_access_token_request(client_id: &str, client_secret: &str, scopes: &Vec<String>) -> (r:
    HttpRequest)
    ensures
        r.method == HttpMethod::Post,
        r.url@ == "https://id.twitch.tv/oauth2/token"@,
        r.auth_header is None,
        r.query@.len() == 4,
        r.query@[0].0@ == "grant_type"@ && r.query@[0].1@ == "client_credentials"@,
        r.query@[1].0@ == "client_id"@ && r.query@[1].1@ == client_id@,
        r.query@[2].0@ == "client_secret"@ && r.query@[2].1@ == client_secret@,
        r.query@[3].0@ == "scope"@ && r.query@[3].1@ == space_joined(string_views(scopes@)),
{
    let joined = join_scopes(scopes);
    let mut query: Vec<(String, String)> = Vec::new();
    query.push(("grant_type".to_owned(), "client_credentials".to_owned()));
    query.push(("client_id".to_owned(), client_id.to_owned()));
    query.push(("client_secret".to_owned(), client_secret.to_owned()));
    query.push(("scope".to_owned(), joined));
    HttpRequest {
        method: HttpMethod::Post,
        url: "https://id.twitch.tv/oauth2/token".to_owned(),
        query,
        auth_header: None,
    }
}

/// Builds the validation request: a GET to the validation endpoint with no
/// query, authorized by the header `Authorization: OAuth <access_token>`.
pub fn validate_token_request(token: &AppAccessToken) -> (r: HttpRequest)
    ensures
        r.method == HttpMethod::Get,
        r.url@ == "https://id.twitch.tv/oauth2/validate"@,
        r.query@.len() == 0,
        r.auth_header matches Some(h) && h@ == oauth_header(token.access_token@),
{
    let mut h = "OAuth ".to_owned();
    h.append(token.access_token.as_str());
    HttpRequest {
        method: HttpMethod::Get,
        url: "https://id.twitch.tv/oauth2/validate".to_owned(),
        query: Vec::new(),
        auth_header: Some(h),
    }
}

/// Builds the revocation request: a POST to the revoke endpoint whose query
/// carries the token to revoke and the client it was issued to.
pub fn revoke_token_request(token: &AppAccessToken, client_id: &str) -> (r: HttpRequest)
    ensures
        r.method == HttpMethod::Post,
        r.url@ == "https://id.twitch.tv/oauth2/revoke"@,
        r.auth_header is None,
        r.query@.len() == 2,
        r.query@[0].0@ == "token"@ && r.query@[0].1@ == token.access_token@,
        r.query@[1].0@ == "client_id"@ && r.query@[1].1@ == client_id@,
{
    let mut query: Vec<(String, String)> = Vec::new();
    query.push(("token".to_owned(), token.access_token.clone()));
    query.push(("client_id".to_owned(), client_id.to_owned()));
    HttpRequest {
        method: HttpMethod::Post,
        url: "https://id.twitch.tv/oauth2/revoke".to_owned(),
        query,
        auth_header: None,
    }
}

} // verus!
