//! Account identities: DID syntax, DID methods and the resolved identity.

use vstd::prelude::*;

verus! {

/// The update scheme of a DID, as far as the migration distinguishes it.
#[derive(Clone, Copy, Debug, PartialEq, Eq, Structural)]
pub enum DidMethod {
    /// Directory-based: the document is changed by a signed operation.
    Plc,
    /// Web-hosted: the document is changed by whoever controls its URL.
    Web,
    /// Any other method; the migration cannot move such an identity.
    Unknown,
}

pub open spec fn is_lower(c: char) -> bool {
    'a' <= c <= 'z'
}

pub open spec fn is_alphanumeric(c: char) -> bool {
    ('a' <= c <= 'z') || ('A' <= c <= 'Z') || ('0' <= c <= '9')
}

/// The characters that may end a DID's method-specific part.
pub open spec fn is_did_end_char(c: char) -> bool {
    is_alphanumeric(c) || c == '.' || c == '_' || c == '-'
}

/// The characters of a DID's method-specific part.
pub open spec fn is_did_char(c: char) -> bool {
    is_did_end_char(c) || c == ':' || c == '%'
}

/// Index of the first `:` of `s` at or after `from`, or `s.len()` if there is none.
pub open spec fn first_colon(s: Seq<char>, from: int) -> int
    decreases s.len() - from,
{
    if from < 0 || from >= s.len() {
        s.len() as int
    } else if s[from] == ':' {
        from
    } else {
        first_colon(s, from + 1)
    }
}

/// `did:` followed by a non-empty lower-case method name, `:`, and a non-empty
/// method-specific part that does not end in `:` or `%`; at most 2048 characters.
pub open spec fn did_syntax(s: Seq<char>) -> bool {
    let m = first_colon(s, 4);
    &&& 4 <= s.len() <= 2048
    &&& s[0] == 'd' && s[1] == 'i' && s[2] == 'd' && s[3] == ':'
    &&& 4 < m < s.len() - 1
    &&& forall|i: int| 4 <= i < m ==> is_lower(#[trigger] s[i])
    &&& forall|i: int| m < i < s.len() - 1 ==> is_did_char(#[trigger] s[i])
    &&& is_did_end_char(s[s.len() - 1])
}

/// The part of a DID before its second `:`, such as `did:plc`.
pub open spec fn did_method_prefix(s: Seq<char>) -> Seq<char> {
    s.take(first_colon(s, 4))
}

/// Parses `did` with `atrium_api::types::string::Did::new` and, where that
/// accepts it, reads `Did::method` off the result.
///
/// Trusted: `Did::new` accepts exactly the strings of `did_syntax`, and
/// `Did::method` returns the accepted string up to its second `:`.
#[verifier::external_body]
fn parse_did_method(did: &str) -> (method: Option<String>)
    ensures
        method is Some <==> did_syntax(did@),
        method is Some ==> method->0@ == did_method_prefix(did@),
{
    match atrium_api::types::string::Did::new(did.to_string()) {
        Ok(parsed) => Some(parsed.method().to_string()),
        Err(_) => None,
    }
}

/// The method of a DID as the DID spells it, such as `did:plc`; `None`
/// where `did` is not a DID.
pub fn method_name(did: &str) -> (name: Option<String>)
    ensures
        name is Some <==> did_syntax(did@),
        name is Some ==> name->0@ == did_method_prefix(did@),
{
    parse_did_method(did)
}

/// The method that a DID's prefix stands for.
pub open spec fn classify(prefix: Seq<char>) -> DidMethod {
    if prefix == "did:plc"@ {
        DidMethod::Plc
    } else if prefix == "did:web"@ {
        DidMethod::Web
    } else {
        DidMethod::Unknown
    }
}

/// The method of a DID.
pub open spec fn method_of(did: Seq<char>) -> DidMethod {
    classify(did_method_prefix(did))
}

impl DidMethod {
    pub open spec fn label(self) -> Seq<char> {
        match self {
            DidMethod::Plc => "did:plc"@,
            DidMethod::Web => "did:web"@,
            DidMethod::Unknown => "unknown"@,
        }
    }

    pub fn name(&self) -> (r: String)
        ensures
            r@ == self.label(),
    {
        match self {
            DidMethod::Plc => "did:plc".to_string(),
            DidMethod::Web => "did:web".to_string(),
            DidMethod::Unknown => "unknown".to_string(),
        }
    }

    /// The method that the prefix of a DID stands for: `did:plc` and
    /// `did:web` are known, every other prefix is `Unknown`.
    pub fn from_prefix(prefix: &String) -> (method: DidMethod)
        ensures
            method == classify(prefix@),
    {
        if *prefix == "did:plc".to_string() {
            DidMethod::Plc
        } else if *prefix == "did:web".to_string() {
            DidMethod::Web
        } else {
            DidMethod::Unknown
        }
    }

    /// The method of `did`, or `None` where `did` is not a DID.
    pub fn of(did: &str) -> (method: Option<DidMethod>)
        ensures
            method is Some <==> did_syntax(did@),
            method is Some ==> method->0 == method_of(did@),
    {
        match method_name(did) {
            Some(prefix) => Some(DidMethod::from_prefix(&prefix)),
            None => None,
        }
    }
}

/// Whether `text` is a DID.
pub fn is_did(text: &str) -> (r: bool)
    ensures
        r == did_syntax(text@),
{
    method_name(text).is_some()
}

/// An account as the identity resolver reports it.
#[derive(Clone, Debug, PartialEq, Eq)]
pub struct AccountIdentity {
    pub did: String,
    pub method: DidMethod,
    /// The server that hosts the account.
    pub endpoint: String,
    /// The handle that the operator named the account by, if any.
    pub handle: Option<String>,
}

pub struct IdentityView {
    pub did: Seq<char>,
    pub method: DidMethod,
    pub endpoint: Seq<char>,
    pub handle: Option<Seq<char>>,
}

impl View for AccountIdentity {
    type V = IdentityView;

    open spec fn view(&self) -> IdentityView {
        IdentityView {
            did: self.did@,
            method: self.method,
            endpoint: self.endpoint@,
            handle: self.handle.deep_view(),
        }
    }
}

/// The identity of the account that `identifier` names, given the DID and
/// the endpoint that it resolved to. An identifier that is no DID is a handle.
pub open spec fn identity_of(identifier: Seq<char>, did: Seq<char>, endpoint: Seq<char>) -> IdentityView {
    IdentityView {
        did,
        method: method_of(did),
        endpoint,
        handle: if did_syntax(identifier) {
            None
        } else {
            Some(identifier)
        },
    }
}

impl AccountIdentity {
    /// The identity behind a resolution of `identifier`, or `None` where the
    /// resolved DID is malformed.
    pub fn resolved(identifier: &String, did: String, endpoint: String) -> (identity: Option<AccountIdentity>)
        ensures
            identity is Some <==> did_syntax(did@),
            identity is Some ==> identity->0@ == identity_of(identifier@, did@, endpoint@),
    {
        match DidMethod::of(did.as_str()) {
            Some(method) => {
                let handle = if is_did(identifier.as_str()) {
                    None
                } else {
                    Some(identifier.clone())
                };
                Some(AccountIdentity { did, method, endpoint, handle })
            },
            None => None,
        }
    }

    /// An equal identity.
    pub fn duplicate(&self) -> (r: AccountIdentity)
        ensures
            r@ == self@,
    {
        let handle = match &self.handle {
            Some(h) => Some(h.clone()),
            None => None,
        };
        AccountIdentity {
            did: self.did.clone(),
            method: self.method,
            endpoint: self.endpoint.clone(),
            handle,
        }
    }
}

} // verus!
