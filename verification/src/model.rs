//! The migration as a state machine over mathematical values: what a
//! session holds, and how each outcome changes it and chooses the next call.

use crate::blobs::{BlobRequestView, BlobTransferView};
use crate::credentials::DidCredentialsView;
use crate::error::{kind_of, MigrationErrorView};
use crate::identity::{did_syntax, identity_of, method_of, DidMethod, IdentityView};
use crate::keys::{hex_string, rotation_key_list, RecoveryKeypairView};
use crate::plan::PlanView;
use crate::protocol::{ActionView, EventView};
use crate::stage::{Operation, Stage};
use crate::token::{create_account_operation, JwtSessionView, ServiceTokenView};
use vstd::prelude::*;

verus! {

/// Whether a session waits, and for what, or has ended, and how.
pub enum StatusView {
    /// The outcome of this operation is awaited.
    Awaiting(Operation),
    /// The migration is complete.
    Finished,
    /// The migration has stopped on this failure.
    Aborted(MigrationErrorView),
}

/// What a session holds.
pub struct SessionView {
    pub plan: PlanView,
    /// The last stage that is confirmed.
    pub stage: Stage,
    pub status: StatusView,
    /// The account, once it is resolved.
    pub identity: Option<IdentityView>,
    /// The DID of the destination server, once it is known.
    pub destination_did: Option<Seq<char>>,
    /// The service token, while the call that it was issued for is under way.
    pub service_token: Option<ServiceTokenView>,
    pub blobs: BlobTransferView,
    /// The recommended credentials, while a signed update is prepared.
    pub credentials: Option<DidCredentialsView>,
    /// The keys that could sign for the identity before the migration,
    /// while a signed update is prepared.
    pub earlier_keys: Option<Seq<Seq<char>>>,
    /// The new recovery key, while a signed update is prepared.
    pub recovery: Option<RecoveryKeypairView>,
    /// The challenge token, while a signed update is prepared.
    pub challenge: Option<Seq<char>>,
}

/// The cause reported where an outcome is not one that the awaited
/// operation can have.
pub open spec fn unexpected_outcome() -> Seq<char> {
    "the outcome does not answer the pending operation"@
}

pub open spec fn malformed_did() -> Seq<char> {
    "the resolved DID is malformed"@
}

pub open spec fn unsupported_method() -> Seq<char> {
    "the DID method is not supported"@
}

impl Operation {
    /// The steps of the signed update of a directory-based identity.
    pub open spec fn is_signed_update_step(self) -> bool {
        self == Operation::ReadRotationKeys || self == Operation::GenerateRecoveryKey || self
            == Operation::RequestIdentityChallenge || self == Operation::PromptChallengeToken || self
            == Operation::RevealRecoveryKey || self == Operation::SignIdentityOperation
    }

    /// The steps of the manual update of a web-hosted identity.
    pub open spec fn is_manual_update_step(self) -> bool {
        self == Operation::PublishIdentityDocument || self == Operation::VerifyIdentity
    }

    /// The steps between the reading of the earlier keys and their use.
    pub open spec fn holds_earlier_keys(self) -> bool {
        self == Operation::GenerateRecoveryKey || self.holds_recovery_key()
    }

    /// The steps between the reading of the credentials and their use in a
    /// signed update.
    pub open spec fn holds_credentials(self) -> bool {
        self == Operation::ReadRotationKeys || self.holds_earlier_keys()
    }

    /// The steps between the making of the recovery key and its use.
    pub open spec fn holds_recovery_key(self) -> bool {
        self == Operation::RequestIdentityChallenge || self == Operation::PromptChallengeToken
            || self == Operation::RevealRecoveryKey
    }
}

impl SessionView {
    /// The method of the account; `Unknown` before the account is resolved.
    pub open spec fn method(self) -> DidMethod {
        match self.identity {
            Some(identity) => identity.method,
            None => DidMethod::Unknown,
        }
    }

    /// The DID of the account.
    pub open spec fn did(self) -> Seq<char> {
        self.identity->0.did
    }

    /// What holds of every session that a migration can be in.
    pub open spec fn well_formed(self) -> bool {
        &&& self.plan.well_formed()
        &&& self.blobs.well_formed()
        &&& self.identity matches Some(identity) ==> did_syntax(identity.did) && identity.method
            == method_of(identity.did)
        &&& match self.status {
            StatusView::Awaiting(op) => {
                &&& op != Operation::SelectIdentityMethod
                &&& self.stage.rank() + 1 == op.goal().rank()
                &&& op.goal().rank() > Stage::IdentityResolved.rank() ==> self.identity is Some
                &&& op == Operation::IssueServiceAuth ==> self.destination_did is Some
                &&& (op == Operation::CreateAccount) == (self.service_token is Some)
                &&& (op == Operation::FetchBlob || op == Operation::UploadBlob)
                    ==> self.blobs.has_current()
                &&& op == Operation::GetRecommendedIdentityCredentials ==> self.method()
                    != DidMethod::Unknown
                &&& op.is_signed_update_step() ==> self.method() == DidMethod::Plc
                &&& op.is_manual_update_step() ==> self.method() == DidMethod::Web
                &&& op.holds_credentials() == (self.credentials is Some)
                &&& op.holds_earlier_keys() == (self.earlier_keys is Some)
                &&& op.holds_recovery_key() == (self.recovery is Some)
                &&& (op == Operation::RevealRecoveryKey) == (self.challenge is Some)
            },
            StatusView::Finished => {
                &&& self.stage == Stage::Finalized
                &&& self.service_token is None
                &&& self.recovery is None
                &&& self.challenge is None
            },
            StatusView::Aborted(error) => {
                &&& self.stage.rank() < error.operation.goal().rank()
                &&& self.service_token is None
                &&& self.recovery is None
                &&& self.challenge is None
            },
        }
    }

    /// The session and the call that a migration begins with.
    pub open spec fn start(plan: PlanView) -> (SessionView, ActionView) {
        (
            SessionView {
                plan,
                stage: Stage::Initial,
                status: StatusView::Awaiting(Operation::AuthenticateSource),
                identity: None,
                destination_did: None,
                service_token: None,
                blobs: BlobTransferView::initial(),
                credentials: None,
                earlier_keys: None,
                recovery: None,
                challenge: None,
            },
            ActionView::AuthenticateSource { identifier: plan.identifier, secret: plan.source_secret },
        )
    }

    /// The session waits for the outcome of `action`, which is the next call.
    pub open spec fn ask(self, action: ActionView) -> (SessionView, ActionView) {
        (SessionView { status: StatusView::Awaiting(action.operation()->0), ..self }, action)
    }

    /// The stage is confirmed.
    pub open spec fn reach(self, stage: Stage) -> SessionView {
        SessionView { stage, ..self }
    }

    /// The migration stops: `op` failed for `cause`. Nothing is undone; what
    /// is secret or used up is dropped.
    pub open spec fn abort(self, op: Operation, cause: Seq<char>) -> (SessionView, ActionView) {
        let error = MigrationErrorView { kind: kind_of(op, self.method()), operation: op, cause };
        (
            SessionView {
                status: StatusView::Aborted(error),
                service_token: None,
                recovery: None,
                challenge: None,
                ..self
            },
            ActionView::Abort { error },
        )
    }

    /// The migration stops: the outcome is none that `op` can have.
    pub open spec fn reject(self, op: Operation) -> (SessionView, ActionView) {
        self.abort(op, unexpected_outcome())
    }

    /// Logging in to the source server and resolving the account.
    pub open spec fn establish(self, op: Operation, event: EventView) -> (SessionView, ActionView) {
        match (op, event) {
            (Operation::AuthenticateSource, EventView::Completed) => self.reach(Stage::Authenticated).ask(
                ActionView::ResolveIdentity { identifier: self.plan.identifier },
            ),
            (Operation::ResolveIdentity, EventView::IdentityResolved { did, endpoint }) => {
                if did_syntax(did) {
                    (SessionView {
                        identity: Some(identity_of(self.plan.identifier, did, endpoint)),
                        ..self.reach(Stage::IdentityResolved)
                    }).ask(ActionView::DescribeServer)
                } else {
                    self.abort(op, malformed_did())
                }
            },
            _ => self.reject(op),
        }
    }

    /// The call that creates the account, made by the bearer of the token.
    pub open spec fn create_account(self, bearer: Seq<char>) -> ActionView {
        ActionView::CreateAccount {
            session: JwtSessionView {
                did: self.did(),
                token: bearer,
                base_uri: self.plan.destination_url,
            },
            did: self.did(),
            email: self.plan.email,
            handle: self.plan.handle,
            secret: self.plan.destination_secret,
            invite_code: self.plan.invite_code,
        }
    }

    /// Making the account on the destination server: the server tells its
    /// DID, the source issues a token for account creation there, the token
    /// creates the account, and a login opens a session of the usual kind.
    pub open spec fn provision(self, op: Operation, event: EventView) -> (SessionView, ActionView) {
        match (op, event) {
            (Operation::DescribeServer, EventView::ServerDescribed { did }) => (SessionView {
                destination_did: Some(did),
                ..self
            }).ask(
                ActionView::IssueServiceAuth {
                    audience: did,
                    operation: create_account_operation(),
                    expiry: None,
                },
            ),
            (Operation::IssueServiceAuth, EventView::ServiceAuthIssued { token }) => {
                let issued = ServiceTokenView {
                    audience: self.destination_did->0,
                    operation: create_account_operation(),
                    expiry: None,
                    bearer: token,
                };
                (SessionView { service_token: Some(issued), ..self }).ask(self.create_account(token))
            },
            (Operation::CreateAccount, EventView::Completed) => (SessionView {
                service_token: None,
                ..self
            }).ask(
                ActionView::AuthenticateDestination {
                    handle: self.plan.handle,
                    secret: self.plan.destination_secret,
                },
            ),
            (Operation::AuthenticateDestination, EventView::Completed) => self.reach(
                Stage::AccountProvisioned,
            ).ask(ActionView::ExportRepository { did: self.did() }),
            _ => self.reject(op),
        }
    }

    /// What the blob engine asks for, as a call; after the last blob of the
    /// last page the blobs are migrated and the preferences are next.
    pub open spec fn continue_blobs(self) -> (SessionView, ActionView) {
        match self.blobs.next() {
            BlobRequestView::Fetch { content_id } => self.ask(
                ActionView::FetchBlob { did: self.did(), content_id },
            ),
            BlobRequestView::List { cursor } => self.ask(
                ActionView::ListBlobs { did: self.did(), cursor, limit: self.plan.blob_page_limit },
            ),
            BlobRequestView::Done => self.reach(Stage::BlobsMigrated).ask(ActionView::GetPreferences),
        }
    }

    /// The identity transition begins with the choice of its protocol by the
    /// method of the DID. An unknown method ends the migration at once.
    pub open spec fn begin_transition(self) -> (SessionView, ActionView) {
        match self.method() {
            DidMethod::Unknown => self.abort(Operation::SelectIdentityMethod, unsupported_method()),
            _ => self.ask(ActionView::GetRecommendedIdentityCredentials),
        }
    }

    /// Moving the data: the repository as one archive, the blobs page by
    /// page, the preferences as one set.
    pub open spec fn transfer(self, op: Operation, event: EventView) -> (SessionView, ActionView) {
        match (op, event) {
            (Operation::ExportRepository, EventView::RepositoryExported { archive }) => self.ask(
                ActionView::ImportRepository { archive },
            ),
            (Operation::ImportRepository, EventView::Completed) => (SessionView {
                blobs: BlobTransferView::initial(),
                ..self.reach(Stage::RepositoryMigrated)
            }).ask(
                ActionView::ListBlobs {
                    did: self.did(),
                    cursor: None,
                    limit: self.plan.blob_page_limit,
                },
            ),
            (Operation::ListBlobs, EventView::BlobsListed { content_ids, cursor }) => (SessionView {
                blobs: self.blobs.page_listed(content_ids, cursor),
                ..self
            }).continue_blobs(),
            (Operation::FetchBlob, EventView::BlobFetched { payload }) => self.ask(
                ActionView::UploadBlob { content_id: self.blobs.current(), payload },
            ),
            (Operation::UploadBlob, EventView::Completed) => (SessionView {
                blobs: self.blobs.blob_uploaded(),
                ..self
            }).continue_blobs(),
            (Operation::GetPreferences, EventView::PreferencesFetched { preferences }) => self.ask(
                ActionView::PutPreferences { preferences },
            ),
            (Operation::PutPreferences, EventView::Completed) => self.reach(
                Stage::PreferencesMigrated,
            ).begin_transition(),
            _ => self.reject(op),
        }
    }

    /// The signed update that is submitted to the source server: what the
    /// destination recommends, and the operator's challenge token. The
    /// rotation keys are the new recovery key, the recommended keys and the
    /// keys that the identity had before, each once.
    pub open spec fn signed_update(self) -> ActionView {
        ActionView::SignIdentityOperation {
            also_known_as: self.credentials->0.also_known_as,
            rotation_keys: rotation_key_list(
                self.recovery->0.did_key,
                self.credentials->0.rotation_keys,
                self.earlier_keys->0,
            ),
            services: self.credentials->0.services,
            verification_methods: self.credentials->0.verification_methods,
            token: self.challenge->0,
        }
    }

    /// Changing the DID document so that it names the destination server.
    /// The credentials are asked for only where the method is known: with a
    /// directory-based identity a signed update is prepared, with a
    /// web-hosted one the operator is shown what to publish.
    pub open spec fn transition_identity(self, op: Operation, event: EventView) -> (SessionView, ActionView) {
        match (op, event) {
            (
                Operation::GetRecommendedIdentityCredentials,
                EventView::CredentialsRecommended { credentials },
            ) => if self.method() == DidMethod::Plc {
                (SessionView { credentials: Some(credentials), ..self }).ask(
                    ActionView::ReadRotationKeys { did: self.did() },
                )
            } else {
                self.ask(
                    ActionView::PublishIdentityDocument {
                        credentials,
                        endpoint: self.plan.destination_url,
                    },
                )
            },
            (Operation::ReadRotationKeys, EventView::RotationKeysRead { keys }) => (SessionView {
                earlier_keys: Some(keys),
                ..self
            }).ask(ActionView::GenerateRecoveryKey),
            (Operation::GenerateRecoveryKey, EventView::RecoveryKeyGenerated { keypair }) => (SessionView {
                recovery: Some(keypair),
                ..self
            }).ask(ActionView::RequestIdentityChallenge),
            (Operation::RequestIdentityChallenge, EventView::Completed) => self.ask(
                ActionView::PromptChallengeToken,
            ),
            (Operation::PromptChallengeToken, EventView::ChallengeTokenEntered { token }) => (SessionView {
                challenge: Some(token),
                ..self
            }).ask(ActionView::RevealRecoveryKey { private_key: hex_string(self.recovery->0.secret) }),
            (Operation::RevealRecoveryKey, EventView::Completed) => (SessionView {
                credentials: None,
                earlier_keys: None,
                recovery: None,
                challenge: None,
                ..self
            }).ask(self.signed_update()),
            (Operation::SignIdentityOperation, EventView::Completed) => self.reach(
                Stage::IdentityTransitioned,
            ).ask(ActionView::ActivateAccount),
            (Operation::PublishIdentityDocument, EventView::Completed) => self.ask(
                ActionView::VerifyIdentity { did: self.did() },
            ),
            (Operation::VerifyIdentity, EventView::IdentityResolved { did, endpoint }) => {
                if endpoint == self.plan.destination_url {
                    self.reach(Stage::IdentityTransitioned).ask(ActionView::ActivateAccount)
                } else {
                    self.ask(ActionView::CorrectIdentityDocument { endpoint: self.plan.destination_url })
                }
            },
            _ => self.reject(op),
        }
    }

    /// The point of no return: the destination account is activated, and
    /// only when that has succeeded the source account is deactivated.
    pub open spec fn finalize(self, op: Operation, event: EventView) -> (SessionView, ActionView) {
        match (op, event) {
            (Operation::ActivateAccount, EventView::Completed) => self.ask(
                ActionView::DeactivateAccount { delete_after: None },
            ),
            (Operation::DeactivateAccount, EventView::Completed) => (
                SessionView { stage: Stage::Finalized, status: StatusView::Finished, ..self },
                ActionView::Finished,
            ),
            _ => self.reject(op),
        }
    }

    /// What a successful outcome of `op` leads to.
    pub open spec fn advance(self, op: Operation, event: EventView) -> (SessionView, ActionView) {
        match op.goal() {
            Stage::Initial | Stage::Authenticated | Stage::IdentityResolved => self.establish(op, event),
            Stage::AccountProvisioned => self.provision(op, event),
            Stage::RepositoryMigrated | Stage::BlobsMigrated | Stage::PreferencesMigrated => self.transfer(
                op,
                event,
            ),
            Stage::IdentityTransitioned => self.transition_identity(op, event),
            Stage::Finalized => self.finalize(op, event),
        }
    }

    /// The session after an outcome, and the next call. A failure of the
    /// awaited call stops the migration; a session that has ended stays as
    /// it is and repeats how it ended.
    pub open spec fn step(self, event: EventView) -> (SessionView, ActionView) {
        match self.status {
            StatusView::Finished => (self, ActionView::Finished),
            StatusView::Aborted(error) => (self, ActionView::Abort { error }),
            StatusView::Awaiting(op) => match event {
                EventView::Failed { cause } => self.abort(op, cause),
                _ => self.advance(op, event),
            },
        }
    }
}

} // verus!
