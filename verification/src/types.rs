//! The data records of the client and its error taxonomy.

use vstd::prelude::*;

verus! {

/// Why an operation failed: the transport failed, the server answered with a
/// non-success status code, or a success response carried a body that does
/// not match the expected JSON shape.
#[derive(Debug, Clone, Copy, PartialEq, Eq, Structural)]
pub enum Error {
    /// The HTTP transfer itself failed (network, DNS, TLS).
    Transport,
    /// The server answered, but with a status code outside 200..=299.
    HttpStatus(u16),
    /// The response body was not the expected JSON shape.
    Decode,
}

/// An app access token issued by the client-credentials grant.
#[derive(Debug, Clone)]
pub struct AppAccessToken {
    /// The opaque secret credential.
    pub access_token: String,
    /// Seconds until expiry, relative to the moment of issuance.
    pub expires_in: usize,
    /// The scopes granted to the token, when the provider lists them.
    pub scope: Option<Vec<String>>,
    /// The token's type; the provider answers "bearer" here.
    pub token_type: String,
}

/// The mathematical value of an [`AppAccessToken`]: each string as a
/// sequence of characters.
pub struct AppAccessTokenView {
    pub access_token: Seq<char>,
    pub expires_in: usize,
    pub scope: Option<Seq<Seq<char>>>,
    pub token_type: Seq<char>,
}

/// The provider's introspection result for a presented access token.
#[derive(Debug, Clone)]
pub struct ValidatedToken {
    /// The identifier of the client the token was issued to.
    pub client_id: String,
    /// The login name bound to the token, when one exists.
    pub login: Option<String>,
    /// The user identifier bound to the token, when one exists.
    pub user_id: Option<String>,
    /// The scopes the token carries.
    pub scopes: Vec<String>,
}

/// The mathematical value of a [`ValidatedToken`].
pub struct ValidatedTokenView {
    pub client_id: Seq<char>,
    pub login: Option<Seq<char>>,
    pub user_id: Option<Seq<char>>,
    pub scopes: Seq<Seq<char>>,
}

/// The character sequences of a sequence of strings.
pub open spec fn string_views(ss: Seq<String>) -> Seq<Seq<char>> {
    ss.map_values(|s: String| s@)
}

impl View for AppAccessToken {
    type V = AppAccessTokenView;

    open spec fn view(&self) -> AppAccessTokenView {
        AppAccessTokenView {
            access_token: self.access_token@,
            expires_in: self.expires_in,
            scope: match self.scope {
                Some(ss) => Some(string_views(ss@)),
                None => None,
            },
            token_type: self.token_type@,
        }
    }
}

impl View for ValidatedToken {
    type V = ValidatedTokenView;

    open spec fn view(&self) -> ValidatedTokenView {
        ValidatedTokenView {
            client_id: self.client_id@,
            login: match self.login {
                Some(l) => Some(l@),
                None => None,
            },
            user_id: match self.user_id {
                Some(u) => Some(u@),
                None => None,
            },
            scopes: string_views(self.scopes@),
        }
    }
}

} // verus!
