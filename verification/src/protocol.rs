//! The two sides of one exchange with the world: the call that the
//! migration asks for and the outcome that it is told of.

use crate::credentials::{DidCredentials, DidCredentialsView};
use crate::error::{MigrationError, MigrationErrorView};
use crate::keys::{RecoveryKeypair, RecoveryKeypairView};
use crate::stage::Operation;
use crate::token::{JwtSessionManager, JwtSessionView};
use vstd::prelude::*;

verus! {

/// `atrium_api::types::Union`: one entry of an open union.
#[verifier::external_type_specification]
#[verifier::external_body]
#[verifier::reject_recursive_types(T)]
pub struct ExUnion<T>(atrium_api::types::Union<T>);

/// `atrium_api::app::bsky::actor::defs::PreferencesItem`: one preference of
/// an account. The migration hands preferences on without reading them.
#[verifier::external_type_specification]
#[verifier::external_body]
pub struct ExPreferencesItem(atrium_api::app::bsky::actor::defs::PreferencesItem);

/// The outcome of the call that the migration asked for last.
#[derive(Clone, Debug, PartialEq, Eq)]
pub enum Event {
    /// The call failed.
    Failed { cause: String },
    /// The call succeeded and has nothing to report.
    Completed,
    IdentityResolved { did: String, endpoint: String },
    ServerDescribed { did: String },
    ServiceAuthIssued { token: String },
    RepositoryExported { archive: Vec<u8> },
    BlobsListed { content_ids: Vec<String>, cursor: Option<String> },
    BlobFetched { payload: Vec<u8> },
    PreferencesFetched { preferences: atrium_api::app::bsky::actor::defs::Preferences },
    CredentialsRecommended { credentials: DidCredentials },
    /// The keys that may sign for the identity at this time.
    RotationKeysRead { keys: Vec<String> },
    RecoveryKeyGenerated { keypair: RecoveryKeypair },
    ChallengeTokenEntered { token: String },
}

pub enum EventView {
    Failed { cause: Seq<char> },
    Completed,
    IdentityResolved { did: Seq<char>, endpoint: Seq<char> },
    ServerDescribed { did: Seq<char> },
    ServiceAuthIssued { token: Seq<char> },
    RepositoryExported { archive: Seq<u8> },
    BlobsListed { content_ids: Seq<Seq<char>>, cursor: Option<Seq<char>> },
    BlobFetched { payload: Seq<u8> },
    PreferencesFetched {
        preferences: Seq<atrium_api::types::Union<atrium_api::app::bsky::actor::defs::PreferencesItem>>,
    },
    CredentialsRecommended { credentials: DidCredentialsView },
    RotationKeysRead { keys: Seq<Seq<char>> },
    RecoveryKeyGenerated { keypair: RecoveryKeypairView },
    ChallengeTokenEntered { token: Seq<char> },
}

impl View for Event {
    type V = EventView;

    open spec fn view(&self) -> EventView {
        match self {
            Event::Failed { cause } => EventView::Failed { cause: cause@ },
            Event::Completed => EventView::Completed,
            Event::IdentityResolved { did, endpoint } => EventView::IdentityResolved {
                did: did@,
                endpoint: endpoint@,
            },
            Event::ServerDescribed { did } => EventView::ServerDescribed { did: did@ },
            Event::ServiceAuthIssued { token } => EventView::ServiceAuthIssued { token: token@ },
            Event::RepositoryExported { archive } => EventView::RepositoryExported { archive: archive@ },
            Event::BlobsListed { content_ids, cursor } => EventView::BlobsListed {
                content_ids: content_ids.deep_view(),
                cursor: cursor.deep_view(),
            },
            Event::BlobFetched { payload } => EventView::BlobFetched { payload: payload@ },
            Event::PreferencesFetched { preferences } => EventView::PreferencesFetched {
                preferences: preferences@,
            },
            Event::CredentialsRecommended { credentials } => EventView::CredentialsRecommended {
                credentials: credentials@,
            },
            Event::RotationKeysRead { keys } => EventView::RotationKeysRead { keys: keys.deep_view() },
            Event::RecoveryKeyGenerated { keypair } => EventView::RecoveryKeyGenerated { keypair: keypair@ },
            Event::ChallengeTokenEntered { token } => EventView::ChallengeTokenEntered { token: token@ },
        }
    }
}

/// What the migration asks the caller to do next.
#[derive(Clone, Debug, PartialEq, Eq)]
pub enum Action {
    /// Log in to the source server.
    AuthenticateSource { identifier: String, secret: String },
    /// Resolve the account that the operator named.
    ResolveIdentity { identifier: String },
    /// Ask the destination server for its own DID.
    DescribeServer,
    /// Ask the source server for a token for one call on `audience`.
    IssueServiceAuth { audience: String, operation: String, expiry: Option<i64> },
    /// Create the account on the destination server, by the service token.
    CreateAccount {
        session: JwtSessionManager,
        did: String,
        email: String,
        handle: String,
        secret: String,
        invite_code: Option<String>,
    },
    /// Log in to the new account on the destination server.
    AuthenticateDestination { handle: String, secret: String },
    ExportRepository { did: String },
    ImportRepository { archive: Vec<u8> },
    ListBlobs { did: String, cursor: Option<String>, limit: Option<u16> },
    FetchBlob { did: String, content_id: String },
    UploadBlob { content_id: String, payload: Vec<u8> },
    GetPreferences,
    /// Replace the preferences of the destination account.
    PutPreferences { preferences: atrium_api::app::bsky::actor::defs::Preferences },
    GetRecommendedIdentityCredentials,
    /// Read from the directory the keys that may sign for the identity now.
    ReadRotationKeys { did: String },
    /// Make a recovery key pair on this machine.
    GenerateRecoveryKey,
    /// Have the source server send the operator a challenge token.
    RequestIdentityChallenge,
    /// Ask the operator for the challenge token.
    PromptChallengeToken,
    /// Show the operator the secret of the recovery key and wait until the
    /// operator confirms that it is stored.
    RevealRecoveryKey { private_key: String },
    /// Have the source server sign and publish the changed DID document.
    SignIdentityOperation {
        also_known_as: Option<Vec<String>>,
        rotation_keys: Vec<String>,
        services: Option<atrium_api::types::Unknown>,
        verification_methods: Option<atrium_api::types::Unknown>,
        token: String,
    },
    /// Show the operator what the DID document has to declare and wait
    /// until the operator confirms that it was changed.
    PublishIdentityDocument { credentials: DidCredentials, endpoint: String },
    /// Tell the operator that the DID document does not name `endpoint` yet
    /// and wait until the operator confirms that it was changed.
    CorrectIdentityDocument { endpoint: String },
    /// Resolve the DID again to see which server its document names.
    VerifyIdentity { did: String },
    ActivateAccount,
    DeactivateAccount { delete_after: Option<String> },
    /// Nothing: the migration is complete.
    Finished,
    /// Nothing but to report the failure: the migration has stopped.
    Abort { error: MigrationError },
}

pub enum ActionView {
    AuthenticateSource { identifier: Seq<char>, secret: Seq<char> },
    ResolveIdentity { identifier: Seq<char> },
    DescribeServer,
    IssueServiceAuth { audience: Seq<char>, operation: Seq<char>, expiry: Option<i64> },
    CreateAccount {
        session: JwtSessionView,
        did: Seq<char>,
        email: Seq<char>,
        handle: Seq<char>,
        secret: Seq<char>,
        invite_code: Option<Seq<char>>,
    },
    AuthenticateDestination { handle: Seq<char>, secret: Seq<char> },
    ExportRepository { did: Seq<char> },
    ImportRepository { archive: Seq<u8> },
    ListBlobs { did: Seq<char>, cursor: Option<Seq<char>>, limit: Option<u16> },
    FetchBlob { did: Seq<char>, content_id: Seq<char> },
    UploadBlob { content_id: Seq<char>, payload: Seq<u8> },
    GetPreferences,
    PutPreferences {
        preferences: Seq<atrium_api::types::Union<atrium_api::app::bsky::actor::defs::PreferencesItem>>,
    },
    GetRecommendedIdentityCredentials,
    ReadRotationKeys { did: Seq<char> },
    GenerateRecoveryKey,
    RequestIdentityChallenge,
    PromptChallengeToken,
    RevealRecoveryKey { private_key: Seq<char> },
    SignIdentityOperation {
        also_known_as: Option<Seq<Seq<char>>>,
        rotation_keys: Seq<Seq<char>>,
        services: Option<atrium_api::types::Unknown>,
        verification_methods: Option<atrium_api::types::Unknown>,
        token: Seq<char>,
    },
    PublishIdentityDocument { credentials: DidCredentialsView, endpoint: Seq<char> },
    CorrectIdentityDocument { endpoint: Seq<char> },
    VerifyIdentity { did: Seq<char> },
    ActivateAccount,
    DeactivateAccount { delete_after: Option<Seq<char>> },
    Finished,
    Abort { error: MigrationErrorView },
}

impl View for Action {
    type V = ActionView;

    open spec fn view(&self) -> ActionView {
        match self {
            Action::AuthenticateSource { identifier, secret } => ActionView::AuthenticateSource {
                identifier: identifier@,
                secret: secret@,
            },
            Action::ResolveIdentity { identifier } => ActionView::ResolveIdentity { identifier: identifier@ },
            Action::DescribeServer => ActionView::DescribeServer,
            Action::IssueServiceAuth { audience, operation, expiry } => ActionView::IssueServiceAuth {
                audience: audience@,
                operation: operation@,
                expiry: *expiry,
            },
            Action::CreateAccount { session, did, email, handle, secret, invite_code } => ActionView::CreateAccount {
                session: session@,
                did: did@,
                email: email@,
                handle: handle@,
                secret: secret@,
                invite_code: invite_code.deep_view(),
            },
            Action::AuthenticateDestination { handle, secret } => ActionView::AuthenticateDestination {
                handle: handle@,
                secret: secret@,
            },
            Action::ExportRepository { did } => ActionView::ExportRepository { did: did@ },
            Action::ImportRepository { archive } => ActionView::ImportRepository { archive: archive@ },
            Action::ListBlobs { did, cursor, limit } => ActionView::ListBlobs {
                did: did@,
                cursor: cursor.deep_view(),
                limit: *limit,
            },
            Action::FetchBlob { did, content_id } => ActionView::FetchBlob {
                did: did@,
                content_id: content_id@,
            },
            Action::UploadBlob { content_id, payload } => ActionView::UploadBlob {
                content_id: content_id@,
                payload: payload@,
            },
            Action::GetPreferences => ActionView::GetPreferences,
            Action::PutPreferences { preferences } => ActionView::PutPreferences { preferences: preferences@ },
            Action::GetRecommendedIdentityCredentials => ActionView::GetRecommendedIdentityCredentials,
            Action::ReadRotationKeys { did } => ActionView::ReadRotationKeys { did: did@ },
            Action::GenerateRecoveryKey => ActionView::GenerateRecoveryKey,
            Action::RequestIdentityChallenge => ActionView::RequestIdentityChallenge,
            Action::PromptChallengeToken => ActionView::PromptChallengeToken,
            Action::RevealRecoveryKey { private_key } => ActionView::RevealRecoveryKey {
                private_key: private_key@,
            },
            Action::SignIdentityOperation {
                also_known_as,
                rotation_keys,
                services,
                verification_methods,
                token,
            } => ActionView::SignIdentityOperation {
                also_known_as: also_known_as.deep_view(),
                rotation_keys: rotation_keys.deep_view(),
                services: *services,
                verification_methods: *verification_methods,
                token: token@,
            },
            Action::PublishIdentityDocument { credentials, endpoint } => ActionView::PublishIdentityDocument {
                credentials: credentials@,
                endpoint: endpoint@,
            },
            Action::CorrectIdentityDocument { endpoint } => ActionView::CorrectIdentityDocument {
                endpoint: endpoint@,
            },
            Action::VerifyIdentity { did } => ActionView::VerifyIdentity { did: did@ },
            Action::ActivateAccount => ActionView::ActivateAccount,
            Action::DeactivateAccount { delete_after } => ActionView::DeactivateAccount {
                delete_after: delete_after.deep_view(),
            },
            Action::Finished => ActionView::Finished,
            Action::Abort { error } => ActionView::Abort { error: error@ },
        }
    }
}

impl ActionView {
    /// The operation that the action asks for; none where the migration has
    /// ended.
    pub open spec fn operation(self) -> Option<Operation> {
        match self {
            ActionView::AuthenticateSource { .. } => Some(Operation::AuthenticateSource),
            ActionView::ResolveIdentity { .. } => Some(Operation::ResolveIdentity),
            ActionView::DescribeServer => Some(Operation::DescribeServer),
            ActionView::IssueServiceAuth { .. } => Some(Operation::IssueServiceAuth),
            ActionView::CreateAccount { .. } => Some(Operation::CreateAccount),
            ActionView::AuthenticateDestination { .. } => Some(Operation::AuthenticateDestination),
            ActionView::ExportRepository { .. } => Some(Operation::ExportRepository),
            ActionView::ImportRepository { .. } => Some(Operation::ImportRepository),
            ActionView::ListBlobs { .. } => Some(Operation::ListBlobs),
            ActionView::FetchBlob { .. } => Some(Operation::FetchBlob),
            ActionView::UploadBlob { .. } => Some(Operation::UploadBlob),
            ActionView::GetPreferences => Some(Operation::GetPreferences),
            ActionView::PutPreferences { .. } => Some(Operation::PutPreferences),
            ActionView::GetRecommendedIdentityCredentials => Some(
                Operation::GetRecommendedIdentityCredentials,
            ),
            ActionView::ReadRotationKeys { .. } => Some(Operation::ReadRotationKeys),
            ActionView::GenerateRecoveryKey => Some(Operation::GenerateRecoveryKey),
            ActionView::RequestIdentityChallenge => Some(Operation::RequestIdentityChallenge),
            ActionView::PromptChallengeToken => Some(Operation::PromptChallengeToken),
            ActionView::RevealRecoveryKey { .. } => Some(Operation::RevealRecoveryKey),
            ActionView::SignIdentityOperation { .. } => Some(Operation::SignIdentityOperation),
            ActionView::PublishIdentityDocument { .. } => Some(Operation::PublishIdentityDocument),
            ActionView::CorrectIdentityDocument { .. } => Some(Operation::PublishIdentityDocument),
            ActionView::VerifyIdentity { .. } => Some(Operation::VerifyIdentity),
            ActionView::ActivateAccount => Some(Operation::ActivateAccount),
            ActionView::DeactivateAccount { .. } => Some(Operation::DeactivateAccount),
            ActionView::Finished => None,
            ActionView::Abort { .. } => None,
        }
    }
}

impl Action {
    /// The operation that the action asks for; none where the migration has
    /// ended.
    pub fn operation(&self) -> (r: Option<Operation>)
        ensures
            r == self@.operation(),
    {
        match self {
            Action::AuthenticateSource { .. } => Some(Operation::AuthenticateSource),
            Action::ResolveIdentity { .. } => Some(Operation::ResolveIdentity),
            Action::DescribeServer => Some(Operation::DescribeServer),
            Action::IssueServiceAuth { .. } => Some(Operation::IssueServiceAuth),
            Action::CreateAccount { .. } => Some(Operation::CreateAccount),
            Action::AuthenticateDestination { .. } => Some(Operation::AuthenticateDestination),
            Action::ExportRepository { .. } => Some(Operation::ExportRepository),
            Action::ImportRepository { .. } => Some(Operation::ImportRepository),
            Action::ListBlobs { .. } => Some(Operation::ListBlobs),
            Action::FetchBlob { .. } => Some(Operation::FetchBlob),
            Action::UploadBlob { .. } => Some(Operation::UploadBlob),
            Action::GetPreferences => Some(Operation::GetPreferences),
            Action::PutPreferences { .. } => Some(Operation::PutPreferences),
            Action::GetRecommendedIdentityCredentials => Some(Operation::GetRecommendedIdentityCredentials),
            Action::ReadRotationKeys { .. } => Some(Operation::ReadRotationKeys),
            Action::GenerateRecoveryKey => Some(Operation::GenerateRecoveryKey),
            Action::RequestIdentityChallenge => Some(Operation::RequestIdentityChallenge),
            Action::PromptChallengeToken => Some(Operation::PromptChallengeToken),
            Action::RevealRecoveryKey { .. } => Some(Operation::RevealRecoveryKey),
            Action::SignIdentityOperation { .. } => Some(Operation::SignIdentityOperation),
            Action::PublishIdentityDocument { .. } => Some(Operation::PublishIdentityDocument),
            Action::CorrectIdentityDocument { .. } => Some(Operation::PublishIdentityDocument),
            Action::VerifyIdentity { .. } => Some(Operation::VerifyIdentity),
            Action::ActivateAccount => Some(Operation::ActivateAccount),
            Action::DeactivateAccount { .. } => Some(Operation::DeactivateAccount),
            Action::Finished => None,
            Action::Abort { .. } => None,
        }
    }
}

} // verus!
