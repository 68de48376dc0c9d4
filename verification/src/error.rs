//! Why a migration stopped.

use crate::identity::DidMethod;
use crate::stage::{Operation, Stage};
use vstd::prelude::*;
use vstd::string::StringExecFns;

verus! {

/// The plane of account data that a transfer failure hit.
#[derive(Clone, Copy, Debug, PartialEq, Eq, Structural)]
pub enum TransferPhase {
    Repository,
    Blob,
    Preferences,
}

/// The class of a failure.
#[derive(Clone, Copy, Debug, PartialEq, Eq, Structural)]
pub enum ErrorKind {
    Authentication,
    IdentityResolution,
    ServerCapability,
    Authorization,
    AccountProvisioning,
    DataTransfer { phase: TransferPhase },
    IdentityTransition { method: DidMethod },
    Finalization,
}

impl TransferPhase {
    pub open spec fn label(self) -> Seq<char> {
        match self {
            TransferPhase::Repository => "repository"@,
            TransferPhase::Blob => "blob"@,
            TransferPhase::Preferences => "preferences"@,
        }
    }

    pub fn name(&self) -> (r: String)
        ensures
            r@ == self.label(),
    {
        match self {
            TransferPhase::Repository => "repository".to_string(),
            TransferPhase::Blob => "blob".to_string(),
            TransferPhase::Preferences => "preferences".to_string(),
        }
    }
}

impl ErrorKind {
    /// The name of the class, with what a transfer failure hit or which
    /// method a transition failure was about.
    pub open spec fn label(self) -> Seq<char> {
        match self {
            ErrorKind::Authentication => "AuthenticationError"@,
            ErrorKind::IdentityResolution => "IdentityResolutionError"@,
            ErrorKind::ServerCapability => "ServerCapabilityError"@,
            ErrorKind::Authorization => "AuthorizationError"@,
            ErrorKind::AccountProvisioning => "AccountProvisioningError"@,
            ErrorKind::DataTransfer { phase } => "DataTransferError("@ + phase.label() + ")"@,
            ErrorKind::IdentityTransition { method } => "IdentityTransitionError("@ + method.label()
                + ")"@,
            ErrorKind::Finalization => "FinalizationError"@,
        }
    }

    pub fn name(&self) -> (r: String)
        ensures
            r@ == self.label(),
    {
        match self {
            ErrorKind::Authentication => "AuthenticationError".to_string(),
            ErrorKind::IdentityResolution => "IdentityResolutionError".to_string(),
            ErrorKind::ServerCapability => "ServerCapabilityError".to_string(),
            ErrorKind::Authorization => "AuthorizationError".to_string(),
            ErrorKind::AccountProvisioning => "AccountProvisioningError".to_string(),
            ErrorKind::DataTransfer { phase } => {
                let mut text = "DataTransferError(".to_string();
                text.append(phase.name().as_str());
                text.append(")");
                text
            },
            ErrorKind::IdentityTransition { method } => {
                let mut text = "IdentityTransitionError(".to_string();
                text.append(method.name().as_str());
                text.append(")");
                text
            },
            ErrorKind::Finalization => "FinalizationError".to_string(),
        }
    }
}

/// What a stopped migration leaves behind on the destination server.
#[derive(Clone, Copy, Debug, PartialEq, Eq, Structural)]
pub enum DestinationState {
    /// No account creation was attempted.
    Untouched,
    /// An account may exist; it is not active.
    Partial,
    /// The account is active; the source account was not deactivated.
    Active,
}

/// The class of a failure of `operation` for an account of `method`.
pub open spec fn kind_of(operation: Operation, method: DidMethod) -> ErrorKind {
    match operation {
        Operation::AuthenticateSource => ErrorKind::Authentication,
        Operation::ResolveIdentity => ErrorKind::IdentityResolution,
        Operation::DescribeServer => ErrorKind::ServerCapability,
        Operation::IssueServiceAuth => ErrorKind::Authorization,
        Operation::CreateAccount | Operation::AuthenticateDestination => ErrorKind::AccountProvisioning,
        Operation::ExportRepository | Operation::ImportRepository => ErrorKind::DataTransfer {
            phase: TransferPhase::Repository,
        },
        Operation::ListBlobs | Operation::FetchBlob | Operation::UploadBlob => ErrorKind::DataTransfer {
            phase: TransferPhase::Blob,
        },
        Operation::GetPreferences | Operation::PutPreferences => ErrorKind::DataTransfer {
            phase: TransferPhase::Preferences,
        },
        Operation::SelectIdentityMethod | Operation::GetRecommendedIdentityCredentials
        | Operation::ReadRotationKeys
        | Operation::GenerateRecoveryKey | Operation::RequestIdentityChallenge | Operation::PromptChallengeToken
        | Operation::RevealRecoveryKey | Operation::SignIdentityOperation
        | Operation::PublishIdentityDocument | Operation::VerifyIdentity => ErrorKind::IdentityTransition {
            method,
        },
        Operation::ActivateAccount | Operation::DeactivateAccount => ErrorKind::Finalization,
    }
}

/// What a failure of `operation` leaves behind on the destination server:
/// nothing before the first attempt to create the account, an active account
/// once only the deactivation of the source is left to do.
pub open spec fn destination_after(operation: Operation) -> DestinationState {
    match operation {
        Operation::AuthenticateSource | Operation::ResolveIdentity | Operation::DescribeServer
        | Operation::IssueServiceAuth => DestinationState::Untouched,
        Operation::DeactivateAccount => DestinationState::Active,
        _ => DestinationState::Partial,
    }
}

pub open spec fn destination_note(state: DestinationState) -> Seq<char> {
    match state {
        DestinationState::Untouched => "; the destination server was not changed"@,
        DestinationState::Partial => "; the destination account is left partially provisioned"@,
        DestinationState::Active => "; the destination account is active and the source account is still active"@,
    }
}

/// A failure that ended a migration.
#[derive(Clone, Debug, PartialEq, Eq)]
pub struct MigrationError {
    pub kind: ErrorKind,
    /// The call that failed.
    pub operation: Operation,
    /// What the collaborator reported.
    pub cause: String,
}

pub struct MigrationErrorView {
    pub kind: ErrorKind,
    pub operation: Operation,
    pub cause: Seq<char>,
}

impl View for MigrationError {
    type V = MigrationErrorView;

    open spec fn view(&self) -> MigrationErrorView {
        MigrationErrorView { kind: self.kind, operation: self.operation, cause: self.cause@ }
    }
}

impl MigrationErrorView {
    /// The line shown to the operator: the class of the failure, the failed
    /// operation and who was to perform it, the stage it worked towards, the
    /// cause, and the state of the destination.
    pub open spec fn report(self) -> Seq<char> {
        self.kind.label() + ": "@ + self.operation.label() + " ("@ + self.operation.party().label()
            + ") failed on the way to stage "@ + self.operation.goal().label() + ": "@ + self.cause
            + destination_note(destination_after(self.operation))
    }
}

impl MigrationError {
    /// The error for a failure of `operation` with the given cause.
    pub fn new(operation: Operation, method: DidMethod, cause: String) -> (e: MigrationError)
        ensures
            e@ == (MigrationErrorView {
                kind: kind_of(operation, method),
                operation,
                cause: cause@,
            }),
    {
        let kind = match operation {
            Operation::AuthenticateSource => ErrorKind::Authentication,
            Operation::ResolveIdentity => ErrorKind::IdentityResolution,
            Operation::DescribeServer => ErrorKind::ServerCapability,
            Operation::IssueServiceAuth => ErrorKind::Authorization,
            Operation::CreateAccount | Operation::AuthenticateDestination => ErrorKind::AccountProvisioning,
            Operation::ExportRepository | Operation::ImportRepository => ErrorKind::DataTransfer {
                phase: TransferPhase::Repository,
            },
            Operation::ListBlobs | Operation::FetchBlob | Operation::UploadBlob => ErrorKind::DataTransfer {
                phase: TransferPhase::Blob,
            },
            Operation::GetPreferences | Operation::PutPreferences => ErrorKind::DataTransfer {
                phase: TransferPhase::Preferences,
            },
            Operation::SelectIdentityMethod | Operation::GetRecommendedIdentityCredentials
        | Operation::ReadRotationKeys
            | Operation::GenerateRecoveryKey | Operation::RequestIdentityChallenge | Operation::PromptChallengeToken
            | Operation::RevealRecoveryKey | Operation::SignIdentityOperation
            | Operation::PublishIdentityDocument | Operation::VerifyIdentity => ErrorKind::IdentityTransition {
                method,
            },
            Operation::ActivateAccount | Operation::DeactivateAccount => ErrorKind::Finalization,
        };
        MigrationError { kind, operation, cause }
    }

    /// The stage whose work failed.
    pub fn stage(&self) -> (r: Stage)
        ensures
            r == self@.operation.goal(),
    {
        self.operation.stage()
    }

    /// What the failure leaves behind on the destination server.
    pub fn destination(&self) -> (r: DestinationState)
        ensures
            r == destination_after(self@.operation),
    {
        match self.operation {
            Operation::AuthenticateSource | Operation::ResolveIdentity | Operation::DescribeServer
            | Operation::IssueServiceAuth => DestinationState::Untouched,
            Operation::DeactivateAccount => DestinationState::Active,
            _ => DestinationState::Partial,
        }
    }

    /// An equal error.
    pub fn duplicate(&self) -> (r: MigrationError)
        ensures
            r@ == self@,
    {
        MigrationError { kind: self.kind, operation: self.operation, cause: self.cause.clone() }
    }

    /// The line shown to the operator.
    pub fn report(&self) -> (r: String)
        ensures
            r@ == self@.report(),
    {
        let mut line = self.kind.name();
        line.append(": ");
        line.append(self.operation.name().as_str());
        line.append(" (");
        line.append(self.operation.performed_by().name().as_str());
        line.append(") failed on the way to stage ");
        line.append(self.operation.stage().name().as_str());
        line.append(": ");
        line.append(self.cause.as_str());
        match self.destination() {
            DestinationState::Untouched => line.append("; the destination server was not changed"),
            DestinationState::Partial => line.append(
                "; the destination account is left partially provisioned",
            ),
            DestinationState::Active => line.append(
                "; the destination account is active and the source account is still active",
            ),
        }
        line
    }
}

} // verus!
