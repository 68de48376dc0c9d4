//! The stages of a migration and the operations that move it along.

use vstd::prelude::*;

verus! {

/// How far a migration has come. A stage is reached when the external effects
/// that it stands for are confirmed.
#[derive(Clone, Copy, Debug, PartialEq, Eq, Structural)]
pub enum Stage {
    /// Nothing has been confirmed yet.
    Initial,
    Authenticated,
    IdentityResolved,
    AccountProvisioned,
    RepositoryMigrated,
    BlobsMigrated,
    PreferencesMigrated,
    IdentityTransitioned,
    Finalized,
}

impl Stage {
    /// Position of the stage in the fixed order of the workflow.
    pub open spec fn rank(self) -> nat {
        match self {
            Stage::Initial => 0,
            Stage::Authenticated => 1,
            Stage::IdentityResolved => 2,
            Stage::AccountProvisioned => 3,
            Stage::RepositoryMigrated => 4,
            Stage::BlobsMigrated => 5,
            Stage::PreferencesMigrated => 6,
            Stage::IdentityTransitioned => 7,
            Stage::Finalized => 8,
        }
    }

    pub open spec fn label(self) -> Seq<char> {
        match self {
            Stage::Initial => "Initial"@,
            Stage::Authenticated => "Authenticated"@,
            Stage::IdentityResolved => "IdentityResolved"@,
            Stage::AccountProvisioned => "AccountProvisioned"@,
            Stage::RepositoryMigrated => "RepositoryMigrated"@,
            Stage::BlobsMigrated => "BlobsMigrated"@,
            Stage::PreferencesMigrated => "PreferencesMigrated"@,
            Stage::IdentityTransitioned => "IdentityTransitioned"@,
            Stage::Finalized => "Finalized"@,
        }
    }

    pub fn position(&self) -> (r: u8)
        ensures
            r == self.rank(),
    {
        match self {
            Stage::Initial => 0,
            Stage::Authenticated => 1,
            Stage::IdentityResolved => 2,
            Stage::AccountProvisioned => 3,
            Stage::RepositoryMigrated => 4,
            Stage::BlobsMigrated => 5,
            Stage::PreferencesMigrated => 6,
            Stage::IdentityTransitioned => 7,
            Stage::Finalized => 8,
        }
    }

    pub fn name(&self) -> (r: String)
        ensures
            r@ == self.label(),
    {
        match self {
            Stage::Initial => "Initial".to_string(),
            Stage::Authenticated => "Authenticated".to_string(),
            Stage::IdentityResolved => "IdentityResolved".to_string(),
            Stage::AccountProvisioned => "AccountProvisioned".to_string(),
            Stage::RepositoryMigrated => "RepositoryMigrated".to_string(),
            Stage::BlobsMigrated => "BlobsMigrated".to_string(),
            Stage::PreferencesMigrated => "PreferencesMigrated".to_string(),
            Stage::IdentityTransitioned => "IdentityTransitioned".to_string(),
            Stage::Finalized => "Finalized".to_string(),
        }
    }
}

/// Who carries out an operation.
#[derive(Clone, Copy, Debug, PartialEq, Eq, Structural)]
pub enum Party {
    /// The server that hosts the account before the migration.
    Source,
    /// The server that hosts the account after the migration.
    Destination,
    /// The identity resolver.
    Resolver,
    /// The directory that keeps the history of a directory-based identity.
    Directory,
    /// The human who runs the migration.
    Operator,
    /// The machine the migration runs on.
    Local,
}

impl Party {
    pub open spec fn label(self) -> Seq<char> {
        match self {
            Party::Source => "source server"@,
            Party::Destination => "destination server"@,
            Party::Resolver => "identity resolver"@,
            Party::Directory => "identity directory"@,
            Party::Operator => "operator"@,
            Party::Local => "this machine"@,
        }
    }

    pub fn name(&self) -> (r: String)
        ensures
            r@ == self.label(),
    {
        match self {
            Party::Source => "source server".to_string(),
            Party::Destination => "destination server".to_string(),
            Party::Resolver => "identity resolver".to_string(),
            Party::Directory => "identity directory".to_string(),
            Party::Operator => "operator".to_string(),
            Party::Local => "this machine".to_string(),
        }
    }
}

/// One step of the workflow: an external call, or the one decision that
/// can fail.
#[derive(Clone, Copy, Debug, PartialEq, Eq, Structural)]
pub enum Operation {
    AuthenticateSource,
    ResolveIdentity,
    DescribeServer,
    IssueServiceAuth,
    CreateAccount,
    AuthenticateDestination,
    ExportRepository,
    ImportRepository,
    ListBlobs,
    FetchBlob,
    UploadBlob,
    GetPreferences,
    PutPreferences,
    /// The choice of the protocol that changes the DID document.
    SelectIdentityMethod,
    GetRecommendedIdentityCredentials,
    /// The reading of the keys that may sign for the identity so far.
    ReadRotationKeys,
    GenerateRecoveryKey,
    RequestIdentityChallenge,
    PromptChallengeToken,
    RevealRecoveryKey,
    SignIdentityOperation,
    PublishIdentityDocument,
    VerifyIdentity,
    ActivateAccount,
    DeactivateAccount,
}

impl Operation {
    /// The stage that the operation works towards.
    pub open spec fn goal(self) -> Stage {
        match self {
            Operation::AuthenticateSource => Stage::Authenticated,
            Operation::ResolveIdentity => Stage::IdentityResolved,
            Operation::DescribeServer | Operation::IssueServiceAuth | Operation::CreateAccount
            | Operation::AuthenticateDestination => Stage::AccountProvisioned,
            Operation::ExportRepository | Operation::ImportRepository => Stage::RepositoryMigrated,
            Operation::ListBlobs | Operation::FetchBlob | Operation::UploadBlob => Stage::BlobsMigrated,
            Operation::GetPreferences | Operation::PutPreferences => Stage::PreferencesMigrated,
            Operation::SelectIdentityMethod | Operation::GetRecommendedIdentityCredentials
            | Operation::ReadRotationKeys | Operation::GenerateRecoveryKey
            | Operation::RequestIdentityChallenge | Operation::PromptChallengeToken
            | Operation::RevealRecoveryKey | Operation::SignIdentityOperation
            | Operation::PublishIdentityDocument | Operation::VerifyIdentity => Stage::IdentityTransitioned,
            Operation::ActivateAccount | Operation::DeactivateAccount => Stage::Finalized,
        }
    }

    /// The place of the operation in the workflow. The operations of the
    /// blob transfer share a place, and so do those of the manual update of
    /// a web-hosted identity: they are the ones that come round again.
    pub open spec fn place(self) -> nat {
        match self {
            Operation::AuthenticateSource => 0,
            Operation::ResolveIdentity => 1,
            Operation::DescribeServer => 2,
            Operation::IssueServiceAuth => 3,
            Operation::CreateAccount => 4,
            Operation::AuthenticateDestination => 5,
            Operation::ExportRepository => 6,
            Operation::ImportRepository => 7,
            Operation::ListBlobs | Operation::FetchBlob | Operation::UploadBlob => 8,
            Operation::GetPreferences => 9,
            Operation::PutPreferences => 10,
            Operation::SelectIdentityMethod => 11,
            Operation::GetRecommendedIdentityCredentials => 12,
            Operation::ReadRotationKeys => 13,
            Operation::GenerateRecoveryKey => 14,
            Operation::RequestIdentityChallenge => 15,
            Operation::PromptChallengeToken => 16,
            Operation::RevealRecoveryKey => 17,
            Operation::SignIdentityOperation => 18,
            Operation::PublishIdentityDocument | Operation::VerifyIdentity => 19,
            Operation::ActivateAccount => 20,
            Operation::DeactivateAccount => 21,
        }
    }

    /// Whether the operation may be asked for more than once in a run.
    pub open spec fn comes_round(self) -> bool {
        self == Operation::ListBlobs || self == Operation::FetchBlob || self == Operation::UploadBlob
            || self == Operation::PublishIdentityDocument || self == Operation::VerifyIdentity
    }

    pub open spec fn party(self) -> Party {
        match self {
            Operation::AuthenticateSource | Operation::IssueServiceAuth
            | Operation::ExportRepository | Operation::ListBlobs | Operation::FetchBlob
            | Operation::GetPreferences | Operation::RequestIdentityChallenge
            | Operation::SignIdentityOperation | Operation::DeactivateAccount => Party::Source,
            Operation::DescribeServer | Operation::CreateAccount
            | Operation::AuthenticateDestination | Operation::ImportRepository
            | Operation::UploadBlob | Operation::PutPreferences
            | Operation::GetRecommendedIdentityCredentials | Operation::ActivateAccount => Party::Destination,
            Operation::ResolveIdentity | Operation::VerifyIdentity => Party::Resolver,
            Operation::ReadRotationKeys => Party::Directory,
            Operation::PromptChallengeToken | Operation::RevealRecoveryKey
            | Operation::PublishIdentityDocument => Party::Operator,
            Operation::SelectIdentityMethod | Operation::GenerateRecoveryKey => Party::Local,
        }
    }

    pub open spec fn label(self) -> Seq<char> {
        match self {
            Operation::AuthenticateSource => "AuthenticateAccount(source)"@,
            Operation::ResolveIdentity => "ResolveIdentity"@,
            Operation::DescribeServer => "DescribeServer"@,
            Operation::IssueServiceAuth => "IssueServiceAuth"@,
            Operation::CreateAccount => "CreateAccount"@,
            Operation::AuthenticateDestination => "AuthenticateAccount(destination)"@,
            Operation::ExportRepository => "ExportRepository"@,
            Operation::ImportRepository => "ImportRepository"@,
            Operation::ListBlobs => "ListBlobs"@,
            Operation::FetchBlob => "FetchBlob"@,
            Operation::UploadBlob => "UploadBlob"@,
            Operation::GetPreferences => "GetPreferences"@,
            Operation::PutPreferences => "PutPreferences"@,
            Operation::SelectIdentityMethod => "SelectIdentityMethod"@,
            Operation::GetRecommendedIdentityCredentials => "GetRecommendedIdentityCredentials"@,
            Operation::ReadRotationKeys => "ReadRotationKeys"@,
            Operation::GenerateRecoveryKey => "GenerateRecoveryKey"@,
            Operation::RequestIdentityChallenge => "RequestIdentityChallenge"@,
            Operation::PromptChallengeToken => "PromptChallengeToken"@,
            Operation::RevealRecoveryKey => "RevealRecoveryKey"@,
            Operation::SignIdentityOperation => "SignIdentityOperation"@,
            Operation::PublishIdentityDocument => "PublishIdentityDocument"@,
            Operation::VerifyIdentity => "ResolveIdentity(verification)"@,
            Operation::ActivateAccount => "ActivateAccount"@,
            Operation::DeactivateAccount => "DeactivateAccount"@,
        }
    }

    pub fn stage(&self) -> (r: Stage)
        ensures
            r == self.goal(),
    {
        match self {
            Operation::AuthenticateSource => Stage::Authenticated,
            Operation::ResolveIdentity => Stage::IdentityResolved,
            Operation::DescribeServer | Operation::IssueServiceAuth | Operation::CreateAccount
            | Operation::AuthenticateDestination => Stage::AccountProvisioned,
            Operation::ExportRepository | Operation::ImportRepository => Stage::RepositoryMigrated,
            Operation::ListBlobs | Operation::FetchBlob | Operation::UploadBlob => Stage::BlobsMigrated,
            Operation::GetPreferences | Operation::PutPreferences => Stage::PreferencesMigrated,
            Operation::SelectIdentityMethod | Operation::GetRecommendedIdentityCredentials
            | Operation::ReadRotationKeys | Operation::GenerateRecoveryKey
            | Operation::RequestIdentityChallenge | Operation::PromptChallengeToken
            | Operation::RevealRecoveryKey | Operation::SignIdentityOperation
            | Operation::PublishIdentityDocument | Operation::VerifyIdentity => Stage::IdentityTransitioned,
            Operation::ActivateAccount | Operation::DeactivateAccount => Stage::Finalized,
        }
    }

    pub fn performed_by(&self) -> (r: Party)
        ensures
            r == self.party(),
    {
        match self {
            Operation::AuthenticateSource | Operation::IssueServiceAuth
            | Operation::ExportRepository | Operation::ListBlobs | Operation::FetchBlob
            | Operation::GetPreferences | Operation::RequestIdentityChallenge
            | Operation::SignIdentityOperation | Operation::DeactivateAccount => Party::Source,
            Operation::DescribeServer | Operation::CreateAccount
            | Operation::AuthenticateDestination | Operation::ImportRepository
            | Operation::UploadBlob | Operation::PutPreferences
            | Operation::GetRecommendedIdentityCredentials | Operation::ActivateAccount => Party::Destination,
            Operation::ResolveIdentity | Operation::VerifyIdentity => Party::Resolver,
            Operation::ReadRotationKeys => Party::Directory,
            Operation::PromptChallengeToken | Operation::RevealRecoveryKey
            | Operation::PublishIdentityDocument => Party::Operator,
            Operation::SelectIdentityMethod | Operation::GenerateRecoveryKey => Party::Local,
        }
    }

    pub fn name(&self) -> (r: String)
        ensures
            r@ == self.label(),
    {
        match self {
            Operation::AuthenticateSource => "AuthenticateAccount(source)".to_string(),
            Operation::ResolveIdentity => "ResolveIdentity".to_string(),
            Operation::DescribeServer => "DescribeServer".to_string(),
            Operation::IssueServiceAuth => "IssueServiceAuth".to_string(),
            Operation::CreateAccount => "CreateAccount".to_string(),
            Operation::AuthenticateDestination => "AuthenticateAccount(destination)".to_string(),
            Operation::ExportRepository => "ExportRepository".to_string(),
            Operation::ImportRepository => "ImportRepository".to_string(),
            Operation::ListBlobs => "ListBlobs".to_string(),
            Operation::FetchBlob => "FetchBlob".to_string(),
            Operation::UploadBlob => "UploadBlob".to_string(),
            Operation::GetPreferences => "GetPreferences".to_string(),
            Operation::PutPreferences => "PutPreferences".to_string(),
            Operation::SelectIdentityMethod => "SelectIdentityMethod".to_string(),
            Operation::GetRecommendedIdentityCredentials => "GetRecommendedIdentityCredentials".to_string(),
            Operation::ReadRotationKeys => "ReadRotationKeys".to_string(),
            Operation::GenerateRecoveryKey => "GenerateRecoveryKey".to_string(),
            Operation::RequestIdentityChallenge => "RequestIdentityChallenge".to_string(),
            Operation::PromptChallengeToken => "PromptChallengeToken".to_string(),
            Operation::RevealRecoveryKey => "RevealRecoveryKey".to_string(),
            Operation::SignIdentityOperation => "SignIdentityOperation".to_string(),
            Operation::PublishIdentityDocument => "PublishIdentityDocument".to_string(),
            Operation::VerifyIdentity => "ResolveIdentity(verification)".to_string(),
            Operation::ActivateAccount => "ActivateAccount".to_string(),
            Operation::DeactivateAccount => "DeactivateAccount".to_string(),
        }
    }
}

} // verus!
