//! The identity configuration that a server recommends for an account.

use vstd::prelude::*;

verus! {

/// `atrium_api::types::Unknown`: a fragment of a DID document that the
/// migration hands on without reading it.
#[verifier::external_type_specification]
#[verifier::external_body]
pub struct ExUnknown(atrium_api::types::Unknown);

/// What the destination server wants the account's DID document to declare.
#[derive(Clone, Debug, PartialEq, Eq)]
pub struct DidCredentials {
    pub also_known_as: Option<Vec<String>>,
    /// Keys that may sign later changes of the document.
    pub rotation_keys: Option<Vec<String>>,
    pub services: Option<atrium_api::types::Unknown>,
    pub verification_methods: Option<atrium_api::types::Unknown>,
}

pub struct DidCredentialsView {
    pub also_known_as: Option<Seq<Seq<char>>>,
    pub rotation_keys: Option<Seq<Seq<char>>>,
    pub services: Option<atrium_api::types::Unknown>,
    pub verification_methods: Option<atrium_api::types::Unknown>,
}

impl View for DidCredentials {
    type V = DidCredentialsView;

    open spec fn view(&self) -> DidCredentialsView {
        DidCredentialsView {
            also_known_as: self.also_known_as.deep_view(),
            rotation_keys: self.rotation_keys.deep_view(),
            services: self.services,
            verification_methods: self.verification_methods,
        }
    }
}

} // verus!
