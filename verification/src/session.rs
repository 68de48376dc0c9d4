//! The migration orchestrator: one session for one account and one run.

use crate::blobs::{BlobRequest, BlobTransfer};
use crate::credentials::DidCredentials;
use crate::error::MigrationError;
use crate::identity::{AccountIdentity, DidMethod};
use crate::keys::{rotation_keys, RecoveryKeypair};
use crate::laws::runs::{lemma_step_keeps_the_plan, run, session_after};
use crate::model::{SessionView, StatusView};
use crate::plan::MigrationPlan;
use crate::protocol::{Action, Event, EventView};
use crate::stage::{Operation, Stage};
use crate::token::{account_creation, JwtSessionManager, ServiceToken};
use vstd::prelude::*;

verus! {

/// Whether a session waits, and for what, or has ended, and how.
#[derive(Debug, PartialEq, Eq)]
enum Status {
    /// The outcome of this operation is awaited.
    Awaiting(Operation),
    /// The migration is complete.
    Finished,
    /// The migration has stopped on this failure.
    Aborted(MigrationError),
}

impl View for Status {
    type V = StatusView;

    closed spec fn view(&self) -> StatusView {
        match self {
            Status::Awaiting(op) => StatusView::Awaiting(*op),
            Status::Finished => StatusView::Finished,
            Status::Aborted(error) => StatusView::Aborted(error@),
        }
    }
}

/// What a session holds between two calls.
struct Machine {
    plan: MigrationPlan,
    stage: Stage,
    status: Status,
    identity: Option<AccountIdentity>,
    destination_did: Option<String>,
    service_token: Option<ServiceToken>,
    blobs: BlobTransfer,
    credentials: Option<DidCredentials>,
    earlier_keys: Option<Vec<String>>,
    recovery: Option<RecoveryKeypair>,
    challenge: Option<String>,
}

impl View for Machine {
    type V = SessionView;

    closed spec fn view(&self) -> SessionView {
        SessionView {
            plan: self.plan@,
            stage: self.stage,
            status: self.status@,
            identity: match self.identity {
                Some(identity) => Some(identity@),
                None => None,
            },
            destination_did: self.destination_did.deep_view(),
            service_token: match self.service_token {
                Some(token) => Some(token@),
                None => None,
            },
            blobs: self.blobs@,
            credentials: match self.credentials {
                Some(credentials) => Some(credentials@),
                None => None,
            },
            earlier_keys: self.earlier_keys.deep_view(),
            recovery: match self.recovery {
                Some(keypair) => Some(keypair@),
                None => None,
            },
            challenge: self.challenge.deep_view(),
        }
    }
}

/// The DID of a resolved account.
fn did_of(identity: &Option<AccountIdentity>) -> (did: String)
    requires
        identity is Some,
    ensures
        did@ == identity->0@.did,
{
    identity.as_ref().unwrap().did.clone()
}

/// The method of an account; `Unknown` before the account is resolved.
fn method_of_account(identity: &Option<AccountIdentity>) -> (method: DidMethod)
    ensures
        method == (match *identity {
            Some(identity) => identity.method,
            None => DidMethod::Unknown,
        }),
{
    match identity {
        Some(identity) => identity.method,
        None => DidMethod::Unknown,
    }
}

/// An equal optional text.
fn copy_text(text: &Option<String>) -> (copy: Option<String>)
    ensures
        copy.deep_view() == text.deep_view(),
{
    match text {
        Some(text) => Some(text.clone()),
        None => None,
    }
}

impl Machine {
    #[verifier::type_invariant]
    spec fn inv(self) -> bool {
        self@.well_formed()
    }

    fn start(plan: MigrationPlan) -> (first: (Machine, Action))
        ensures
            (first.0@, first.1@) == SessionView::start(plan@),
            first.0@.well_formed(),
    {
        proof {
            use_type_invariant(&plan);
        }
        let action = Action::AuthenticateSource {
            identifier: plan.identifier().clone(),
            secret: plan.source_secret().clone(),
        };
        let session = Machine {
            plan,
            stage: Stage::Initial,
            status: Status::Awaiting(Operation::AuthenticateSource),
            identity: None,
            destination_did: None,
            service_token: None,
            blobs: BlobTransfer::new(),
            credentials: None,
            earlier_keys: None,
            recovery: None,
            challenge: None,
        };
        (session, action)
    }

    fn abort(self, op: Operation, cause: String) -> (next: (Machine, Action))
        requires
            self@.status is Awaiting,
            self@.stage.rank() < op.goal().rank(),
        ensures
            (next.0@, next.1@) == self@.abort(op, cause@),
    {
        proof {
            use_type_invariant(&self);
        }
        let error = MigrationError::new(op, method_of_account(&self.identity), cause);
        let copy = error.duplicate();
        let session = Machine {
            status: Status::Aborted(error),
            service_token: None,
            recovery: None,
            challenge: None,
            ..self
        };
        (session, Action::Abort { error: copy })
    }

    fn reject(self, op: Operation) -> (next: (Machine, Action))
        requires
            self@.status is Awaiting,
            self@.stage.rank() < op.goal().rank(),
        ensures
            (next.0@, next.1@) == self@.reject(op),
    {
        self.abort(op, "the outcome does not answer the pending operation".to_string())
    }

    fn establish(self, op: Operation, event: Event) -> (next: (Machine, Action))
        requires
            self@.status == StatusView::Awaiting(op),
        ensures
            (next.0@, next.1@) == self@.establish(op, event@),
    {
        proof {
            use_type_invariant(&self);
        }
        match op {
            Operation::AuthenticateSource => match event {
                Event::Completed => {
                    let action = Action::ResolveIdentity { identifier: self.plan.identifier().clone() };
                    let session = Machine {
                        stage: Stage::Authenticated,
                        status: Status::Awaiting(Operation::ResolveIdentity),
                        ..self
                    };
                    (session, action)
                },
                _ => self.reject(op),
            },
            Operation::ResolveIdentity => match event {
                Event::IdentityResolved { did, endpoint } => {
                    match AccountIdentity::resolved(self.plan.identifier(), did, endpoint) {
                        Some(identity) => {
                            let session = Machine {
                                stage: Stage::IdentityResolved,
                                status: Status::Awaiting(Operation::DescribeServer),
                                identity: Some(identity),
                                ..self
                            };
                            (session, Action::DescribeServer)
                        },
                        None => self.abort(op, "the resolved DID is malformed".to_string()),
                    }
                },
                _ => self.reject(op),
            },
            _ => self.reject(op),
        }
    }

    fn provision(self, op: Operation, event: Event) -> (next: (Machine, Action))
        requires
            self@.status == StatusView::Awaiting(op),
            op.goal() == Stage::AccountProvisioned,
        ensures
            (next.0@, next.1@) == self@.provision(op, event@),
    {
        proof {
            use_type_invariant(&self);
        }
        match op {
            Operation::DescribeServer => match event {
                Event::ServerDescribed { did } => {
                    let action = Action::IssueServiceAuth {
                        audience: did.clone(),
                        operation: account_creation(),
                        expiry: None,
                    };
                    let session = Machine {
                        status: Status::Awaiting(Operation::IssueServiceAuth),
                        destination_did: Some(did),
                        ..self
                    };
                    (session, action)
                },
                _ => self.reject(op),
            },
            Operation::IssueServiceAuth => match event {
                Event::ServiceAuthIssued { token } => {
                    let audience = self.destination_did.as_ref().unwrap().clone();
                    let operation = account_creation();
                    let issued = ServiceToken {
                        audience: audience.clone(),
                        operation: operation.clone(),
                        expiry: None,
                        bearer: token,
                    };
                    let bearer = issued.present(&audience, &operation).unwrap();
                    let did = did_of(&self.identity);
                    let action = Action::CreateAccount {
                        session: JwtSessionManager::new(
                            did.clone(),
                            bearer,
                            self.plan.destination_url().as_str(),
                        ),
                        did,
                        email: self.plan.email().clone(),
                        handle: self.plan.handle().clone(),
                        secret: self.plan.destination_secret().clone(),
                        invite_code: copy_text(self.plan.invite_code()),
                    };
                    let session = Machine {
                        status: Status::Awaiting(Operation::CreateAccount),
                        service_token: Some(issued),
                        ..self
                    };
                    (session, action)
                },
                _ => self.reject(op),
            },
            Operation::CreateAccount => match event {
                Event::Completed => {
                    let action = Action::AuthenticateDestination {
                        handle: self.plan.handle().clone(),
                        secret: self.plan.destination_secret().clone(),
                    };
                    let session = Machine {
                        status: Status::Awaiting(Operation::AuthenticateDestination),
                        service_token: None,
                        ..self
                    };
                    (session, action)
                },
                _ => self.reject(op),
            },
            Operation::AuthenticateDestination => match event {
                Event::Completed => {
                    let action = Action::ExportRepository { did: did_of(&self.identity) };
                    let session = Machine {
                        stage: Stage::AccountProvisioned,
                        status: Status::Awaiting(Operation::ExportRepository),
                        ..self
                    };
                    (session, action)
                },
                _ => self.reject(op),
            },
            _ => self.reject(op),
        }
    }

    /// Goes on with the blob transfer where `engine` stands.
    fn continue_blobs(
        plan: MigrationPlan,
        identity: Option<AccountIdentity>,
        destination_did: Option<String>,
        engine: BlobTransfer,
    ) -> (next: (Machine, Action))
        requires
            identity is Some,
            crate::identity::did_syntax(identity->0@.did),
            identity->0@.method == crate::identity::method_of(identity->0@.did),
            engine@.well_formed(),
        ensures
            (next.0@, next.1@) == (SessionView {
                plan: plan@,
                stage: Stage::RepositoryMigrated,
                status: StatusView::Awaiting(Operation::ListBlobs),
                identity: Some(identity->0@),
                destination_did: destination_did.deep_view(),
                service_token: None,
                blobs: engine@,
                credentials: None,
                earlier_keys: None,
                recovery: None,
                challenge: None,
            }).continue_blobs(),
    {
        proof {
            use_type_invariant(&plan);
        }
        match engine.next() {
            BlobRequest::Fetch { content_id } => {
                let action = Action::FetchBlob { did: did_of(&identity), content_id };
                let session = Machine {
                    plan,
                    stage: Stage::RepositoryMigrated,
                    status: Status::Awaiting(Operation::FetchBlob),
                    identity,
                    destination_did,
                    service_token: None,
                    blobs: engine,
                    credentials: None,
                    earlier_keys: None,
                    recovery: None,
                    challenge: None,
                };
                (session, action)
            },
            BlobRequest::List { cursor } => {
                let action = Action::ListBlobs {
                    did: did_of(&identity),
                    cursor,
                    limit: plan.blob_page_limit(),
                };
                let session = Machine {
                    plan,
                    stage: Stage::RepositoryMigrated,
                    status: Status::Awaiting(Operation::ListBlobs),
                    identity,
                    destination_did,
                    service_token: None,
                    blobs: engine,
                    credentials: None,
                    earlier_keys: None,
                    recovery: None,
                    challenge: None,
                };
                (session, action)
            },
            BlobRequest::Done => {
                let session = Machine {
                    plan,
                    stage: Stage::BlobsMigrated,
                    status: Status::Awaiting(Operation::GetPreferences),
                    identity,
                    destination_did,
                    service_token: None,
                    blobs: engine,
                    credentials: None,
                    earlier_keys: None,
                    recovery: None,
                    challenge: None,
                };
                (session, Action::GetPreferences)
            },
        }
    }

    /// Begins the identity transition, once the preferences are migrated.
    fn begin_transition(self) -> (next: (Machine, Action))
        requires
            self@.status == StatusView::Awaiting(Operation::PutPreferences),
        ensures
            (next.0@, next.1@) == self@.reach(Stage::PreferencesMigrated).begin_transition(),
    {
        proof {
            use_type_invariant(&self);
        }
        match method_of_account(&self.identity) {
            DidMethod::Unknown => {
                let error = MigrationError::new(
                    Operation::SelectIdentityMethod,
                    DidMethod::Unknown,
                    "the DID method is not supported".to_string(),
                );
                let copy = error.duplicate();
                let session = Machine {
                    stage: Stage::PreferencesMigrated,
                    status: Status::Aborted(error),
                    service_token: None,
                    recovery: None,
                    challenge: None,
                    ..self
                };
                (session, Action::Abort { error: copy })
            },
            _ => {
                let session = Machine {
                    stage: Stage::PreferencesMigrated,
                    status: Status::Awaiting(Operation::GetRecommendedIdentityCredentials),
                    ..self
                };
                (session, Action::GetRecommendedIdentityCredentials)
            },
        }
    }

    fn transfer(self, op: Operation, event: Event) -> (next: (Machine, Action))
        requires
            self@.status == StatusView::Awaiting(op),
            op.goal() == Stage::RepositoryMigrated || op.goal() == Stage::BlobsMigrated || op.goal()
                == Stage::PreferencesMigrated,
        ensures
            (next.0@, next.1@) == self@.transfer(op, event@),
    {
        proof {
            use_type_invariant(&self);
        }
        match op {
            Operation::ExportRepository => match event {
                Event::RepositoryExported { archive } => {
                    let session = Machine {
                        status: Status::Awaiting(Operation::ImportRepository),
                        ..self
                    };
                    (session, Action::ImportRepository { archive })
                },
                _ => self.reject(op),
            },
            Operation::ImportRepository => match event {
                Event::Completed => {
                    let action = Action::ListBlobs {
                        did: did_of(&self.identity),
                        cursor: None,
                        limit: self.plan.blob_page_limit(),
                    };
                    let session = Machine {
                        stage: Stage::RepositoryMigrated,
                        status: Status::Awaiting(Operation::ListBlobs),
                        blobs: BlobTransfer::new(),
                        ..self
                    };
                    (session, action)
                },
                _ => self.reject(op),
            },
            Operation::ListBlobs => match event {
                Event::BlobsListed { content_ids, cursor } => {
                    let Machine { plan, identity, destination_did, blobs, .. } = self;
                    let engine = blobs.accept_page(content_ids, cursor);
                    Self::continue_blobs(plan, identity, destination_did, engine)
                },
                _ => self.reject(op),
            },
            Operation::FetchBlob => match event {
                Event::BlobFetched { payload } => {
                    let action = Action::UploadBlob { content_id: self.blobs.current(), payload };
                    let session = Machine {
                        status: Status::Awaiting(Operation::UploadBlob),
                        ..self
                    };
                    (session, action)
                },
                _ => self.reject(op),
            },
            Operation::UploadBlob => match event {
                Event::Completed => {
                    let Machine { plan, identity, destination_did, blobs, .. } = self;
                    let engine = blobs.mark_uploaded();
                    Self::continue_blobs(plan, identity, destination_did, engine)
                },
                _ => self.reject(op),
            },
            Operation::GetPreferences => match event {
                Event::PreferencesFetched { preferences } => {
                    let session = Machine {
                        status: Status::Awaiting(Operation::PutPreferences),
                        ..self
                    };
                    (session, Action::PutPreferences { preferences })
                },
                _ => self.reject(op),
            },
            Operation::PutPreferences => match event {
                Event::Completed => self.begin_transition(),
                _ => self.reject(op),
            },
            _ => self.reject(op),
        }
    }

    fn transition_identity(self, op: Operation, event: Event) -> (next: (Machine, Action))
        requires
            self@.status == StatusView::Awaiting(op),
            op.goal() == Stage::IdentityTransitioned,
        ensures
            (next.0@, next.1@) == self@.transition_identity(op, event@),
    {
        proof {
            use_type_invariant(&self);
        }
        match op {
            Operation::GetRecommendedIdentityCredentials => match event {
                Event::CredentialsRecommended { credentials } => {
                    match method_of_account(&self.identity) {
                        DidMethod::Plc => {
                            let action = Action::ReadRotationKeys { did: did_of(&self.identity) };
                            let session = Machine {
                                status: Status::Awaiting(Operation::ReadRotationKeys),
                                credentials: Some(credentials),
                                ..self
                            };
                            (session, action)
                        },
                        _ => {
                            let action = Action::PublishIdentityDocument {
                                credentials,
                                endpoint: self.plan.destination_url().clone(),
                            };
                            let session = Machine {
                                status: Status::Awaiting(Operation::PublishIdentityDocument),
                                ..self
                            };
                            (session, action)
                        },
                    }
                },
                _ => self.reject(op),
            },
            Operation::ReadRotationKeys => match event {
                Event::RotationKeysRead { keys } => {
                    let session = Machine {
                        status: Status::Awaiting(Operation::GenerateRecoveryKey),
                        earlier_keys: Some(keys),
                        ..self
                    };
                    (session, Action::GenerateRecoveryKey)
                },
                _ => self.reject(op),
            },
            Operation::GenerateRecoveryKey => match event {
                Event::RecoveryKeyGenerated { keypair } => {
                    let session = Machine {
                        status: Status::Awaiting(Operation::RequestIdentityChallenge),
                        recovery: Some(keypair),
                        ..self
                    };
                    (session, Action::RequestIdentityChallenge)
                },
                _ => self.reject(op),
            },
            Operation::RequestIdentityChallenge => match event {
                Event::Completed => {
                    let session = Machine {
                        status: Status::Awaiting(Operation::PromptChallengeToken),
                        ..self
                    };
                    (session, Action::PromptChallengeToken)
                },
                _ => self.reject(op),
            },
            Operation::PromptChallengeToken => match event {
                Event::ChallengeTokenEntered { token } => {
                    let action = Action::RevealRecoveryKey {
                        private_key: self.recovery.as_ref().unwrap().private_key_hex(),
                    };
                    let session = Machine {
                        status: Status::Awaiting(Operation::RevealRecoveryKey),
                        challenge: Some(token),
                        ..self
                    };
                    (session, action)
                },
                _ => self.reject(op),
            },
            Operation::RevealRecoveryKey => match event {
                Event::Completed => {
                    let Machine {
                        plan,
                        stage,
                        identity,
                        destination_did,
                        service_token,
                        blobs,
                        credentials,
                        earlier_keys,
                        recovery,
                        challenge,
                        ..
                    } = self;
                    let credentials = credentials.unwrap();
                    let action = Action::SignIdentityOperation {
                        also_known_as: credentials.also_known_as,
                        rotation_keys: rotation_keys(
                            recovery.unwrap().did_key,
                            credentials.rotation_keys,
                            earlier_keys.unwrap(),
                        ),
                        services: credentials.services,
                        verification_methods: credentials.verification_methods,
                        token: challenge.unwrap(),
                    };
                    proof {
                        use_type_invariant(&plan);
                    }
                    let session = Machine {
                        plan,
                        stage,
                        status: Status::Awaiting(Operation::SignIdentityOperation),
                        identity,
                        destination_did,
                        service_token,
                        blobs,
                        credentials: None,
                        earlier_keys: None,
                        recovery: None,
                        challenge: None,
                    };
                    (session, action)
                },
                _ => self.reject(op),
            },
            Operation::SignIdentityOperation => match event {
                Event::Completed => {
                    let session = Machine {
                        stage: Stage::IdentityTransitioned,
                        status: Status::Awaiting(Operation::ActivateAccount),
                        ..self
                    };
                    (session, Action::ActivateAccount)
                },
                _ => self.reject(op),
            },
            Operation::PublishIdentityDocument => match event {
                Event::Completed => {
                    let action = Action::VerifyIdentity { did: did_of(&self.identity) };
                    let session = Machine {
                        status: Status::Awaiting(Operation::VerifyIdentity),
                        ..self
                    };
                    (session, action)
                },
                _ => self.reject(op),
            },
            Operation::VerifyIdentity => match event {
                Event::IdentityResolved { did, endpoint } => {
                    if endpoint == *self.plan.destination_url() {
                        let session = Machine {
                            stage: Stage::IdentityTransitioned,
                            status: Status::Awaiting(Operation::ActivateAccount),
                            ..self
                        };
                        (session, Action::ActivateAccount)
                    } else {
                        let action = Action::CorrectIdentityDocument {
                            endpoint: self.plan.destination_url().clone(),
                        };
                        let session = Machine {
                            status: Status::Awaiting(Operation::PublishIdentityDocument),
                            ..self
                        };
                        (session, action)
                    }
                },
                _ => self.reject(op),
            },
            _ => self.reject(op),
        }
    }

    fn finalize(self, op: Operation, event: Event) -> (next: (Machine, Action))
        requires
            self@.status == StatusView::Awaiting(op),
            op.goal() == Stage::Finalized,
        ensures
            (next.0@, next.1@) == self@.finalize(op, event@),
    {
        proof {
            use_type_invariant(&self);
        }
        match op {
            Operation::ActivateAccount => match event {
                Event::Completed => {
                    let session = Machine {
                        status: Status::Awaiting(Operation::DeactivateAccount),
                        ..self
                    };
                    (session, Action::DeactivateAccount { delete_after: None })
                },
                _ => self.reject(op),
            },
            Operation::DeactivateAccount => match event {
                Event::Completed => {
                    let session = Machine {
                        stage: Stage::Finalized,
                        status: Status::Finished,
                        ..self
                    };
                    (session, Action::Finished)
                },
                _ => self.reject(op),
            },
            _ => self.reject(op),
        }
    }

    fn step(self, event: Event) -> (next: (Machine, Action))
        ensures
            (next.0@, next.1@) == self@.step(event@),
            self@.well_formed(),
            next.0@.well_formed(),
    {
        proof {
            use_type_invariant(&self);
        }
        match &self.status {
            Status::Finished => (self, Action::Finished),
            Status::Aborted(error) => {
                let error = error.duplicate();
                (self, Action::Abort { error })
            },
            Status::Awaiting(op) => {
                let op = *op;
                match event {
                    Event::Failed { cause } => self.abort(op, cause),
                    event => match op.stage() {
                        Stage::Initial | Stage::Authenticated | Stage::IdentityResolved => self.establish(
                            op,
                            event,
                        ),
                        Stage::AccountProvisioned => self.provision(op, event),
                        Stage::RepositoryMigrated | Stage::BlobsMigrated
                        | Stage::PreferencesMigrated => self.transfer(op, event),
                        Stage::IdentityTransitioned => self.transition_identity(op, event),
                        Stage::Finalized => self.finalize(op, event),
                    },
                }
            },
        }
    }
}

/// The state of one migration. A session is made by `start` and changed by
/// `step` alone; it keeps, for the proofs only, the outcomes that it was
/// told of.
pub struct MigrationSession {
    machine: Machine,
    history: Ghost<Seq<EventView>>,
}

impl View for MigrationSession {
    type V = SessionView;

    closed spec fn view(&self) -> SessionView {
        self.machine@
    }
}

impl MigrationSession {
    /// The outcomes that the session was told of, in their order.
    pub closed spec fn history(&self) -> Seq<EventView> {
        self.history@
    }

    /// Every session is well-formed, and it is the session of the run that
    /// its plan and its outcomes make.
    #[verifier::type_invariant]
    pub open spec fn inv(self) -> bool {
        &&& self@.well_formed()
        &&& self@ == session_after(self@.plan, self.history())
    }

    /// Begins a migration: the session, and the first call to make.
    pub fn start(plan: MigrationPlan) -> (first: (MigrationSession, Action))
        ensures
            (first.0@, first.1@) == SessionView::start(plan@),
            first.0.history() == Seq::<EventView>::empty(),
            first.0@.well_formed(),
    {
        let (machine, action) = Machine::start(plan);
        (MigrationSession { machine, history: Ghost(Seq::empty()) }, action)
    }

    /// The session after an outcome, and the next call to make.
    ///
    /// A failure of the awaited call stops the migration, and so does an
    /// outcome that the awaited call cannot have. A session that has ended
    /// stays as it is and repeats how it ended.
    pub fn step(self, event: Event) -> (next: (MigrationSession, Action))
        ensures
            (next.0@, next.1@) == self@.step(event@),
            next.0.history() == self.history().push(event@),
            (next.0@, next.1@) == run(self@.plan, next.0.history()),
            next.0@.plan == self@.plan,
            self@.well_formed(),
            next.0@.well_formed(),
    {
        proof {
            use_type_invariant(&self);
            lemma_step_keeps_the_plan(self@, event@);
        }
        let ghost history = self.history@.push(event@);
        proof {
            assert(history.drop_last() =~= self.history@);
            assert(history.last() == event@);
        }
        let (machine, action) = self.machine.step(event);
        (MigrationSession { machine, history: Ghost(history) }, action)
    }

    /// The last stage that is confirmed.
    pub fn stage(&self) -> (stage: Stage)
        ensures
            stage == self@.stage,
    {
        self.machine.stage
    }

    /// The operation whose outcome the session awaits; none once the
    /// migration has ended.
    pub fn awaiting(&self) -> (op: Option<Operation>)
        ensures
            op == (match self@.status {
                StatusView::Awaiting(op) => Some(op),
                _ => None,
            }),
    {
        match &self.machine.status {
            Status::Awaiting(op) => Some(*op),
            _ => None,
        }
    }

    /// Whether the migration is complete.
    pub fn is_finished(&self) -> (r: bool)
        ensures
            r == (self@.status is Finished),
            r ==> self@.stage == Stage::Finalized,
    {
        proof {
            use_type_invariant(self);
            use_type_invariant(&self.machine);
        }
        match &self.machine.status {
            Status::Finished => true,
            _ => false,
        }
    }

    /// The failure that stopped the migration, if one did.
    pub fn failure(&self) -> (error: Option<MigrationError>)
        ensures
            match self@.status {
                StatusView::Aborted(e) => error is Some && error->0@ == e,
                _ => error is None,
            },
    {
        match &self.machine.status {
            Status::Aborted(error) => Some(error.duplicate()),
            _ => None,
        }
    }

    /// The plan that the session carries out.
    pub fn plan(&self) -> (plan: &MigrationPlan)
        ensures
            plan@ == self@.plan,
    {
        &self.machine.plan
    }

    /// The account, once it is resolved.
    pub fn identity(&self) -> (identity: Option<AccountIdentity>)
        ensures
            match self@.identity {
                Some(i) => identity is Some && identity->0@ == i,
                None => identity is None,
            },
    {
        match &self.machine.identity {
            Some(identity) => Some(identity.duplicate()),
            None => None,
        }
    }

    /// The cursor that came with the last page of content IDs.
    pub fn blob_cursor(&self) -> (cursor: Option<String>)
        ensures
            cursor.deep_view() == self@.blobs.cursor,
    {
        self.machine.blobs.cursor()
    }

    /// How many blobs are transferred.
    pub fn transferred_count(&self) -> (count: u64)
        ensures
            count == self@.blobs.transferred,
    {
        self.machine.blobs.transferred()
    }

    /// Whether the session holds a service token. It does while the
    /// creation of the account is under way, and at no other time.
    pub fn holds_service_token(&self) -> (r: bool)
        ensures
            r == (self@.service_token is Some),
            r == (self@.status == StatusView::Awaiting(Operation::CreateAccount)),
    {
        proof {
            use_type_invariant(self);
            use_type_invariant(&self.machine);
        }
        self.machine.service_token.is_some()
    }

    /// Whether the session holds the secret of a recovery key. It does from
    /// the making of the key until the operator has confirmed that the
    /// secret is stored, and at no other time.
    pub fn holds_recovery_secret(&self) -> (r: bool)
        ensures
            r == (self@.recovery is Some),
            r == (self@.status matches StatusView::Awaiting(op) && op.holds_recovery_key()),
    {
        proof {
            use_type_invariant(self);
            use_type_invariant(&self.machine);
        }
        self.machine.recovery.is_some()
    }
}

} // verus!
