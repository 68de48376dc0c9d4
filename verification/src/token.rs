//! Service tokens: bearer credentials that are good for one call on one server.

use vstd::prelude::*;

verus! {

/// The name of the account-creation call, the one call that a migration
/// asks a service token for.
pub open spec fn create_account_operation() -> Seq<char> {
    "com.atproto.server.createAccount"@
}

/// Reads `atrium_api::com::atproto::server::create_account::NSID`.
///
/// Trusted: the constant is the name `com.atproto.server.createAccount`.
#[verifier::external_body]
fn create_account_nsid() -> (nsid: &'static str)
    ensures
        nsid@ == create_account_operation(),
{
    atrium_api::com::atproto::server::create_account::NSID
}

/// The name of the account-creation call.
pub fn account_creation() -> (operation: String)
    ensures
        operation@ == create_account_operation(),
{
    create_account_nsid().to_string()
}

/// A token that the source server issued for one call on one server.
#[derive(Clone, Debug, PartialEq, Eq)]
pub struct ServiceToken {
    /// The DID of the server that the token may be shown to.
    pub audience: String,
    /// The name of the call that the token may be shown for.
    pub operation: String,
    /// The end of the token's life in seconds since the epoch, where one was asked for.
    pub expiry: Option<i64>,
    /// The token itself.
    pub bearer: String,
}

pub struct ServiceTokenView {
    pub audience: Seq<char>,
    pub operation: Seq<char>,
    pub expiry: Option<i64>,
    pub bearer: Seq<char>,
}

impl View for ServiceToken {
    type V = ServiceTokenView;

    open spec fn view(&self) -> ServiceTokenView {
        ServiceTokenView {
            audience: self.audience@,
            operation: self.operation@,
            expiry: self.expiry,
            bearer: self.bearer@,
        }
    }
}

impl ServiceTokenView {
    /// A token is good for the pair of audience and operation that it was
    /// issued for, and for no other.
    pub open spec fn authorizes(self, audience: Seq<char>, operation: Seq<char>) -> bool {
        self.audience == audience && self.operation == operation
    }

    /// What showing the token for a call yields: the bearer string where the
    /// token is good for the call, nothing otherwise.
    pub open spec fn presented(self, audience: Seq<char>, operation: Seq<char>) -> Option<Seq<char>> {
        if self.authorizes(audience, operation) {
            Some(self.bearer)
        } else {
            None
        }
    }
}

impl ServiceToken {
    /// Whether the token may be shown to `audience` for `operation`.
    pub fn authorizes(&self, audience: &String, operation: &String) -> (r: bool)
        ensures
            r == self@.authorizes(audience@, operation@),
    {
        self.audience == *audience && self.operation == *operation
    }

    /// Shows the token for a call of `operation` on `audience`. The bearer
    /// string comes back if and only if the token was issued for that pair.
    pub fn present(&self, audience: &String, operation: &String) -> (bearer: Option<String>)
        ensures
            bearer.deep_view() == self@.presented(audience@, operation@),
    {
        if self.authorizes(audience, operation) {
            Some(self.bearer.clone())
        } else {
            None
        }
    }
}

/// How a request proves who sends it.
#[derive(Clone, Debug, PartialEq, Eq)]
pub enum AuthorizationToken {
    Bearer(String),
}

/// The session of a client that acts for an account by a service token
/// rather than by a login.
#[derive(Clone, Debug, PartialEq, Eq)]
pub struct JwtSessionManager {
    did: String,
    token: String,
    base_uri: String,
}

pub struct JwtSessionView {
    pub did: Seq<char>,
    pub token: Seq<char>,
    pub base_uri: Seq<char>,
}

impl View for JwtSessionManager {
    type V = JwtSessionView;

    closed spec fn view(&self) -> JwtSessionView {
        JwtSessionView { did: self.did@, token: self.token@, base_uri: self.base_uri@ }
    }
}

impl JwtSessionManager {
    /// A session for the account `did` on the server at `base_uri` that
    /// authorizes every request with `token`.
    pub fn new(did: String, token: String, base_uri: &str) -> (session: JwtSessionManager)
        ensures
            session@ == (JwtSessionView { did: did@, token: token@, base_uri: base_uri@ }),
    {
        JwtSessionManager { did, token, base_uri: base_uri.to_string() }
    }

    /// The address of the server that the session talks to.
    pub fn base_uri(&self) -> (uri: String)
        ensures
            uri@ == self@.base_uri,
    {
        self.base_uri.clone()
    }

    /// The token for a request. The session has one token and cannot renew
    /// it: a request that asks for a refresh token gets the same one.
    pub fn authorization_token(&self, refresh: bool) -> (token: Option<AuthorizationToken>)
        ensures
            token matches Some(AuthorizationToken::Bearer(bearer)) && bearer@ == self@.token,
    {
        Some(AuthorizationToken::Bearer(self.token.clone()))
    }

    /// The account that the session acts for.
    pub fn did(&self) -> (did: Option<String>)
        ensures
            did.deep_view() == Some(self@.did),
    {
        Some(self.did.clone())
    }
}

} // verus!
