use atrium_api::types::Unknown;
use pds_migration::credentials::DidCredentials;
use pds_migration::error::{DestinationState, ErrorKind, MigrationError, TransferPhase};
use pds_migration::identity::DidMethod;
use pds_migration::keys::RecoveryKeypair;
use pds_migration::plan::MigrationPlan;
use pds_migration::protocol::{Action, Event};
use pds_migration::session::MigrationSession;
use pds_migration::stage::{Operation, Party, Stage};
use pds_migration::token::JwtSessionManager;

const PLC_DID: &str = "did:plc:z72i7hdynmk6r22z27h6tvur";
const WEB_DID: &str = "did:web:alice.example";
const SERVER_DID: &str = "did:web:new.example";
const NEW_URL: &str = "https://new.example";

fn plan(page_limit: Option<u16>) -> MigrationPlan {
    MigrationPlan::new(
        "alice.old.example".to_string(),
        "old-secret".to_string(),
        NEW_URL.to_string(),
        "alice@example.com".to_string(),
        "alice.new.example".to_string(),
        "new-secret".to_string(),
        "invite-1".to_string(),
        page_limit,
    )
    .unwrap()
}

fn failed(cause: &str) -> Event {
    Event::Failed { cause: cause.to_string() }
}

fn resolved(did: &str, endpoint: &str) -> Event {
    Event::IdentityResolved { did: did.to_string(), endpoint: endpoint.to_string() }
}

fn credentials() -> DidCredentials {
    DidCredentials {
        also_known_as: Some(vec!["at://alice.new.example".to_string()]),
        rotation_keys: Some(vec!["did:key:server".to_string(), "did:key:old".to_string()]),
        services: Some(Unknown::Null),
        verification_methods: None,
    }
}

/// Runs a migration of the account `did` up to the first listing of blobs.
fn up_to_blobs(did: &str, page_limit: Option<u16>) -> MigrationSession {
    let (session, action) = MigrationSession::start(plan(page_limit));
    assert_eq!(
        action,
        Action::AuthenticateSource {
            identifier: "alice.old.example".to_string(),
            secret: "old-secret".to_string()
        }
    );
    assert_eq!(session.stage(), Stage::Initial);
    let (session, action) = session.step(Event::Completed);
    assert_eq!(action, Action::ResolveIdentity { identifier: "alice.old.example".to_string() });
    assert_eq!(session.stage(), Stage::Authenticated);
    let (session, action) = session.step(resolved(did, "https://old.example"));
    assert_eq!(action, Action::DescribeServer);
    assert_eq!(session.stage(), Stage::IdentityResolved);
    let (session, action) = session.step(Event::ServerDescribed { did: SERVER_DID.to_string() });
    assert_eq!(
        action,
        Action::IssueServiceAuth {
            audience: SERVER_DID.to_string(),
            operation: "com.atproto.server.createAccount".to_string(),
            expiry: None
        }
    );
    assert!(!session.holds_service_token());
    let (session, action) = session.step(Event::ServiceAuthIssued { token: "jwt".to_string() });
    assert_eq!(
        action,
        Action::CreateAccount {
            session: JwtSessionManager::new(did.to_string(), "jwt".to_string(), NEW_URL),
            did: did.to_string(),
            email: "alice@example.com".to_string(),
            handle: "alice.new.example".to_string(),
            secret: "new-secret".to_string(),
            invite_code: Some("invite-1".to_string()),
        }
    );
    assert!(session.holds_service_token());
    assert_eq!(session.stage(), Stage::IdentityResolved);
    let (session, action) = session.step(Event::Completed);
    assert_eq!(
        action,
        Action::AuthenticateDestination {
            handle: "alice.new.example".to_string(),
            secret: "new-secret".to_string()
        }
    );
    assert!(!session.holds_service_token());
    let (session, action) = session.step(Event::Completed);
    assert_eq!(action, Action::ExportRepository { did: did.to_string() });
    assert_eq!(session.stage(), Stage::AccountProvisioned);
    let (session, action) = session.step(Event::RepositoryExported { archive: vec![0xca, 0xfe] });
    assert_eq!(action, Action::ImportRepository { archive: vec![0xca, 0xfe] });
    assert_eq!(session.stage(), Stage::AccountProvisioned);
    let (session, action) = session.step(Event::Completed);
    assert_eq!(action, Action::ListBlobs { did: did.to_string(), cursor: None, limit: page_limit });
    assert_eq!(session.stage(), Stage::RepositoryMigrated);
    assert_eq!(session.awaiting(), Some(Operation::ListBlobs));
    session
}

/// Runs a migration of the account `did` up to the choice of the identity protocol
/// and returns what that choice asks for.
fn up_to_transition(did: &str) -> (MigrationSession, Action) {
    let session = up_to_blobs(did, None);
    let (session, action) = session.step(Event::BlobsListed { content_ids: vec![], cursor: None });
    assert_eq!(action, Action::GetPreferences);
    assert_eq!(session.stage(), Stage::BlobsMigrated);
    let (session, action) = session.step(Event::PreferencesFetched { preferences: vec![] });
    assert_eq!(action, Action::PutPreferences { preferences: vec![] });
    assert_eq!(session.stage(), Stage::BlobsMigrated);
    session.step(Event::Completed)
}

/// A source server that holds `count` blobs and lists them in pages of `page_size`.
fn page(count: usize, page_size: usize, cursor: &Option<String>) -> Event {
    let from: usize = match cursor {
        Some(text) => text.parse().unwrap(),
        None => 0,
    };
    let to = usize::min(from + page_size, count);
    Event::BlobsListed {
        content_ids: (from..to).map(|i| format!("cid-{i:03}")).collect(),
        cursor: if to < count { Some(to.to_string()) } else { None },
    }
}

#[test]
fn empty_account_goes_straight_to_the_preferences() {
    let session = up_to_blobs(PLC_DID, None);
    let (session, action) = session.step(Event::BlobsListed { content_ids: vec![], cursor: None });
    assert_eq!(action, Action::GetPreferences);
    assert_eq!(session.stage(), Stage::BlobsMigrated);
    assert_eq!(session.awaiting(), Some(Operation::GetPreferences));
    assert_eq!(session.transferred_count(), 0);
    assert_eq!(session.blob_cursor(), None);
}

#[test]
fn paginated_transfer_of_250_blobs_in_pages_of_100() {
    let mut session = up_to_blobs(PLC_DID, Some(100));
    let mut action = Action::ListBlobs { did: PLC_DID.to_string(), cursor: None, limit: Some(100) };
    let mut listings = 0;
    let mut page_sizes = vec![];
    let mut cursors = vec![];
    let mut fetched = vec![];
    let mut uploaded = vec![];
    loop {
        let event = match action {
            Action::ListBlobs { did, cursor, limit } => {
                assert_eq!(did, PLC_DID);
                assert_eq!(limit, Some(100));
                listings += 1;
                let event = page(250, 100, &cursor);
                if let Event::BlobsListed { content_ids, .. } = &event {
                    page_sizes.push(content_ids.len());
                }
                cursors.push(cursor);
                event
            }
            Action::FetchBlob { did, content_id } => {
                assert_eq!(did, PLC_DID);
                assert_eq!(fetched.len(), uploaded.len());
                let payload = content_id.clone().into_bytes();
                fetched.push(content_id);
                Event::BlobFetched { payload }
            }
            Action::UploadBlob { content_id, payload } => {
                assert_eq!(payload, content_id.clone().into_bytes());
                assert_eq!(fetched.last(), Some(&content_id));
                uploaded.push(content_id);
                assert_eq!(fetched.len(), uploaded.len());
                Event::Completed
            }
            Action::GetPreferences => break,
            other => panic!("not a call of the blob transfer: {other:?}"),
        };
        assert_eq!(session.stage(), Stage::RepositoryMigrated);
        let next = session.step(event);
        session = next.0;
        action = next.1;
    }
    assert_eq!(listings, 3);
    assert_eq!(page_sizes, vec![100, 100, 50]);
    assert_eq!(cursors, vec![None, Some("100".to_string()), Some("200".to_string())]);
    let expected: Vec<String> = (0..250).map(|i| format!("cid-{i:03}")).collect();
    assert_eq!(fetched, expected);
    assert_eq!(uploaded, expected);
    assert_eq!(session.transferred_count(), 250);
    assert_eq!(session.stage(), Stage::BlobsMigrated);
    assert_eq!(session.blob_cursor(), None);
}

#[test]
fn failure_of_the_37th_fetch_stops_everything() {
    let mut session = up_to_blobs(PLC_DID, None);
    let mut action = session_first_listing(&mut session);
    let mut fetches = 0;
    let mut uploads = 0;
    let error = loop {
        let event = match action {
            Action::FetchBlob { content_id, .. } => {
                fetches += 1;
                if fetches == 37 {
                    assert_eq!(content_id, "cid-036");
                    failed("connection reset")
                } else {
                    Event::BlobFetched { payload: vec![1] }
                }
            }
            Action::UploadBlob { .. } => {
                uploads += 1;
                Event::Completed
            }
            Action::Abort { error } => break error,
            other => panic!("not expected: {other:?}"),
        };
        let next = session.step(event);
        session = next.0;
        action = next.1;
    };
    assert_eq!(fetches, 37);
    assert_eq!(uploads, 36);
    assert_eq!(
        error,
        MigrationError {
            kind: ErrorKind::DataTransfer { phase: TransferPhase::Blob },
            operation: Operation::FetchBlob,
            cause: "connection reset".to_string(),
        }
    );
    assert_eq!(error.destination(), DestinationState::Partial);
    assert_eq!(
        error.report(),
        "DataTransferError(blob): FetchBlob (source server) failed on the way to stage BlobsMigrated: connection reset; the destination account is left partially provisioned"
    );
    assert_eq!(session.stage(), Stage::RepositoryMigrated);
    assert_eq!(session.awaiting(), None);
    assert!(!session.is_finished());
    assert_eq!(session.failure(), Some(error.duplicate()));
    assert_eq!(session.transferred_count(), 36);
    // Whatever the session is told from now on, it asks for nothing more.
    for event in [
        Event::Completed,
        Event::BlobFetched { payload: vec![1] },
        Event::BlobsListed { content_ids: vec!["cid-999".to_string()], cursor: None },
        failed("again"),
        Event::Completed,
    ] {
        let next = session.step(event);
        session = next.0;
        assert_eq!(next.1, Action::Abort { error: error.duplicate() });
        assert_eq!(session.stage(), Stage::RepositoryMigrated);
        assert_eq!(session.transferred_count(), 36);
    }
}

/// Answers the first listing with one page of 100 blobs.
fn session_first_listing(session: &mut MigrationSession) -> Action {
    let taken = std::mem::replace(session, up_to_blobs(PLC_DID, None));
    let (next, action) = taken.step(page(100, 100, &None));
    *session = next;
    assert_eq!(action, Action::FetchBlob { did: PLC_DID.to_string(), content_id: "cid-000".to_string() });
    action
}

#[test]
fn failure_of_an_upload_stops_the_migration() {
    let session = up_to_blobs(PLC_DID, None);
    let (session, _) = session.step(page(3, 10, &None));
    let (session, action) = session.step(Event::BlobFetched { payload: vec![7, 8] });
    assert_eq!(action, Action::UploadBlob { content_id: "cid-000".to_string(), payload: vec![7, 8] });
    let (session, action) = session.step(failed("quota exceeded"));
    assert_eq!(
        action,
        Action::Abort {
            error: MigrationError {
                kind: ErrorKind::DataTransfer { phase: TransferPhase::Blob },
                operation: Operation::UploadBlob,
                cause: "quota exceeded".to_string(),
            }
        }
    );
    assert_eq!(session.transferred_count(), 0);
}

#[test]
fn failure_of_a_listing_stops_the_migration() {
    let session = up_to_blobs(PLC_DID, None);
    let (session, _) = session.step(Event::BlobsListed { content_ids: vec![], cursor: Some("next".to_string()) });
    assert_eq!(session.blob_cursor(), Some("next".to_string()));
    let (session, action) = session.step(failed("RepoNotFound"));
    assert_eq!(
        action,
        Action::Abort {
            error: MigrationError {
                kind: ErrorKind::DataTransfer { phase: TransferPhase::Blob },
                operation: Operation::ListBlobs,
                cause: "RepoNotFound".to_string(),
            }
        }
    );
    assert_eq!(session.stage(), Stage::RepositoryMigrated);
}

#[test]
fn a_page_is_asked_for_with_the_cursor_of_the_page_before() {
    let session = up_to_blobs(PLC_DID, Some(2));
    let (session, action) = session.step(Event::BlobsListed { content_ids: vec![], cursor: Some("k1".to_string()) });
    assert_eq!(
        action,
        Action::ListBlobs { did: PLC_DID.to_string(), cursor: Some("k1".to_string()), limit: Some(2) }
    );
    let (session, action) =
        session.step(Event::BlobsListed { content_ids: vec!["a".to_string()], cursor: Some("k2".to_string()) });
    assert_eq!(action, Action::FetchBlob { did: PLC_DID.to_string(), content_id: "a".to_string() });
    assert_eq!(session.blob_cursor(), Some("k2".to_string()));
    let (session, _) = session.step(Event::BlobFetched { payload: vec![] });
    let (session, action) = session.step(Event::Completed);
    assert_eq!(
        action,
        Action::ListBlobs { did: PLC_DID.to_string(), cursor: Some("k2".to_string()), limit: Some(2) }
    );
    let (session, action) = session.step(Event::BlobsListed { content_ids: vec![], cursor: None });
    assert_eq!(action, Action::GetPreferences);
    assert_eq!(session.blob_cursor(), None);
    assert_eq!(session.transferred_count(), 1);
}

#[test]
fn directory_identity_is_changed_by_a_signed_update() {
    let (session, action) = up_to_transition(PLC_DID);
    assert_eq!(action, Action::GetRecommendedIdentityCredentials);
    assert_eq!(session.stage(), Stage::PreferencesMigrated);
    assert_eq!(session.identity().unwrap().method, DidMethod::Plc);
    let (session, action) = session.step(Event::CredentialsRecommended { credentials: credentials() });
    assert_eq!(action, Action::ReadRotationKeys { did: PLC_DID.to_string() });
    assert_eq!(session.awaiting(), Some(Operation::ReadRotationKeys));
    let (session, action) = session.step(Event::RotationKeysRead {
        keys: vec!["did:key:old".to_string(), "did:key:old-server".to_string()],
    });
    assert_eq!(action, Action::GenerateRecoveryKey);
    assert!(!session.holds_recovery_secret());
    let keypair = RecoveryKeypair { secret: vec![0x01, 0xab, 0xff], did_key: "did:key:new".to_string() };
    let (session, action) = session.step(Event::RecoveryKeyGenerated { keypair });
    assert_eq!(action, Action::RequestIdentityChallenge);
    assert!(session.holds_recovery_secret());
    let (session, action) = session.step(Event::Completed);
    assert_eq!(action, Action::PromptChallengeToken);
    let (session, action) = session.step(Event::ChallengeTokenEntered { token: "ABCDE-12345".to_string() });
    assert_eq!(action, Action::RevealRecoveryKey { private_key: "01abff".to_string() });
    assert!(session.holds_recovery_secret());
    assert_eq!(session.stage(), Stage::PreferencesMigrated);
    let (session, action) = session.step(Event::Completed);
    assert_eq!(
        action,
        Action::SignIdentityOperation {
            also_known_as: Some(vec!["at://alice.new.example".to_string()]),
            rotation_keys: vec![
                "did:key:new".to_string(),
                "did:key:server".to_string(),
                "did:key:old".to_string(),
                "did:key:old-server".to_string(),
            ],
            services: Some(Unknown::Null),
            verification_methods: None,
            token: "ABCDE-12345".to_string(),
        }
    );
    assert!(!session.holds_recovery_secret());
    assert_eq!(session.stage(), Stage::PreferencesMigrated);
    let (session, action) = session.step(Event::Completed);
    assert_eq!(action, Action::ActivateAccount);
    assert_eq!(session.stage(), Stage::IdentityTransitioned);
    let (session, action) = session.step(Event::Completed);
    assert_eq!(action, Action::DeactivateAccount { delete_after: None });
    assert_eq!(session.stage(), Stage::IdentityTransitioned);
    assert!(!session.is_finished());
    let (session, action) = session.step(Event::Completed);
    assert_eq!(action, Action::Finished);
    assert_eq!(session.stage(), Stage::Finalized);
    assert!(session.is_finished());
    assert_eq!(session.awaiting(), None);
    assert_eq!(session.failure(), None);
    let (session, action) = session.step(Event::Completed);
    assert_eq!(action, Action::Finished);
    let (session, action) = session.step(failed("late"));
    assert_eq!(action, Action::Finished);
    assert!(session.is_finished());
}

#[test]
fn generated_key_leads_the_rotation_keys() {
    let (session, _) = up_to_transition(PLC_DID);
    let (session, _) = session.step(Event::CredentialsRecommended {
        credentials: DidCredentials {
            also_known_as: None,
            rotation_keys: None,
            services: None,
            verification_methods: Some(Unknown::Null),
        },
    });
    let (session, _) = session.step(Event::RotationKeysRead { keys: vec![] });
    let keypair = RecoveryKeypair::generate();
    let did_key = keypair.did_key.clone();
    let hex = keypair.private_key_hex();
    let (session, _) = session.step(Event::RecoveryKeyGenerated { keypair });
    let (session, _) = session.step(Event::Completed);
    let (session, action) = session.step(Event::ChallengeTokenEntered { token: "t".to_string() });
    assert_eq!(action, Action::RevealRecoveryKey { private_key: hex });
    let (_, action) = session.step(Event::Completed);
    assert_eq!(
        action,
        Action::SignIdentityOperation {
            also_known_as: None,
            rotation_keys: vec![did_key],
            services: None,
            verification_methods: Some(Unknown::Null),
            token: "t".to_string(),
        }
    );
}

#[test]
fn earlier_key_that_is_not_recommended_is_submitted() {
    let (session, _) = up_to_transition(PLC_DID);
    let (session, _) = session.step(Event::CredentialsRecommended {
        credentials: DidCredentials {
            also_known_as: None,
            rotation_keys: Some(vec!["did:key:server".to_string()]),
            services: None,
            verification_methods: None,
        },
    });
    let (session, _) = session.step(Event::RotationKeysRead {
        keys: vec!["did:key:server".to_string(), "did:key:mine".to_string()],
    });
    let (session, _) = session.step(Event::RecoveryKeyGenerated {
        keypair: RecoveryKeypair { secret: vec![7; 32], did_key: "did:key:new".to_string() },
    });
    let (session, _) = session.step(Event::Completed);
    let (session, _) = session.step(Event::ChallengeTokenEntered { token: "t".to_string() });
    let (session, action) = session.step(Event::Completed);
    assert_eq!(
        action,
        Action::SignIdentityOperation {
            also_known_as: None,
            rotation_keys: vec![
                "did:key:new".to_string(),
                "did:key:server".to_string(),
                "did:key:mine".to_string()
            ],
            services: None,
            verification_methods: None,
            token: "t".to_string(),
        }
    );
    assert_eq!(action.operation().unwrap().performed_by(), Party::Source);
    assert_eq!(session.awaiting(), Some(Operation::SignIdentityOperation));
}

#[test]
fn failed_reading_of_the_earlier_keys_stops_the_signed_update() {
    let (session, _) = up_to_transition(PLC_DID);
    let (session, _) = session.step(Event::CredentialsRecommended { credentials: credentials() });
    let (session, action) = session.step(failed("the directory answered 404"));
    assert_eq!(
        action,
        Action::Abort {
            error: MigrationError {
                kind: ErrorKind::IdentityTransition { method: DidMethod::Plc },
                operation: Operation::ReadRotationKeys,
                cause: "the directory answered 404".to_string(),
            }
        }
    );
    assert_eq!(session.stage(), Stage::PreferencesMigrated);
}

#[test]
fn failed_challenge_request_stops_the_signed_update() {
    let (session, _) = up_to_transition(PLC_DID);
    let (session, _) = session.step(Event::CredentialsRecommended { credentials: credentials() });
    let (session, _) = session.step(Event::RotationKeysRead { keys: vec![] });
    let (session, _) = session.step(Event::RecoveryKeyGenerated {
        keypair: RecoveryKeypair { secret: vec![1], did_key: "did:key:new".to_string() },
    });
    let (session, action) = session.step(failed("mail server down"));
    assert_eq!(
        action,
        Action::Abort {
            error: MigrationError {
                kind: ErrorKind::IdentityTransition { method: DidMethod::Plc },
                operation: Operation::RequestIdentityChallenge,
                cause: "mail server down".to_string(),
            }
        }
    );
    assert!(!session.holds_recovery_secret());
    assert_eq!(session.stage(), Stage::PreferencesMigrated);
}

#[test]
fn web_identity_is_activated_only_once_it_names_the_destination() {
    let (session, action) = up_to_transition(WEB_DID);
    assert_eq!(action, Action::GetRecommendedIdentityCredentials);
    let (session, action) = session.step(Event::CredentialsRecommended { credentials: credentials() });
    assert_eq!(
        action,
        Action::PublishIdentityDocument { credentials: credentials(), endpoint: NEW_URL.to_string() }
    );
    let (session, action) = session.step(Event::Completed);
    assert_eq!(action, Action::VerifyIdentity { did: WEB_DID.to_string() });
    // The document still names the old server.
    let (session, action) = session.step(resolved(WEB_DID, "https://old.example"));
    assert_eq!(action, Action::CorrectIdentityDocument { endpoint: NEW_URL.to_string() });
    assert_eq!(session.stage(), Stage::PreferencesMigrated);
    assert_eq!(session.awaiting(), Some(Operation::PublishIdentityDocument));
    let (session, action) = session.step(Event::Completed);
    assert_eq!(action, Action::VerifyIdentity { did: WEB_DID.to_string() });
    // Nearly the destination is not the destination.
    let (session, action) = session.step(resolved(WEB_DID, "https://new.example/"));
    assert_eq!(action, Action::CorrectIdentityDocument { endpoint: NEW_URL.to_string() });
    let (session, action) = session.step(Event::Completed);
    assert_eq!(action, Action::VerifyIdentity { did: WEB_DID.to_string() });
    let (session, action) = session.step(resolved(WEB_DID, NEW_URL));
    assert_eq!(action, Action::ActivateAccount);
    assert_eq!(session.stage(), Stage::IdentityTransitioned);
    let (session, action) = session.step(Event::Completed);
    assert_eq!(action, Action::DeactivateAccount { delete_after: None });
    let (session, action) = session.step(Event::Completed);
    assert_eq!(action, Action::Finished);
    assert!(session.is_finished());
}

#[test]
fn failed_verification_stops_the_manual_update() {
    let (session, _) = up_to_transition(WEB_DID);
    let (session, _) = session.step(Event::CredentialsRecommended { credentials: credentials() });
    let (session, _) = session.step(Event::Completed);
    let (session, action) = session.step(failed("no such host"));
    assert_eq!(
        action,
        Action::Abort {
            error: MigrationError {
                kind: ErrorKind::IdentityTransition { method: DidMethod::Web },
                operation: Operation::VerifyIdentity,
                cause: "no such host".to_string(),
            }
        }
    );
    assert_eq!(session.stage(), Stage::PreferencesMigrated);
}

#[test]
fn unknown_method_stops_before_any_credentials_are_read() {
    let (session, action) = up_to_transition("did:key:zQ3shZc2QzApp2oymGvQbzP8eKheVshBHbU4ZYjeXqwSKEn6N");
    let error = MigrationError {
        kind: ErrorKind::IdentityTransition { method: DidMethod::Unknown },
        operation: Operation::SelectIdentityMethod,
        cause: "the DID method is not supported".to_string(),
    };
    assert_eq!(action, Action::Abort { error: error.duplicate() });
    assert_eq!(session.stage(), Stage::PreferencesMigrated);
    assert_eq!(session.failure(), Some(error.duplicate()));
    assert_eq!(
        error.report(),
        "IdentityTransitionError(unknown): SelectIdentityMethod (this machine) failed on the way to stage IdentityTransitioned: the DID method is not supported; the destination account is left partially provisioned"
    );
    let (_, action) = session.step(Event::CredentialsRecommended { credentials: credentials() });
    assert_eq!(action, Action::Abort { error });
}

#[test]
fn source_is_not_deactivated_where_the_activation_fails() {
    let (session, _) = up_to_transition(PLC_DID);
    let (session, _) = session.step(Event::CredentialsRecommended { credentials: credentials() });
    let (session, _) = session.step(Event::RotationKeysRead { keys: vec![] });
    let (session, _) = session.step(Event::RecoveryKeyGenerated {
        keypair: RecoveryKeypair { secret: vec![1], did_key: "did:key:new".to_string() },
    });
    let (session, _) = session.step(Event::Completed);
    let (session, _) = session.step(Event::ChallengeTokenEntered { token: "t".to_string() });
    let (session, _) = session.step(Event::Completed);
    let (session, action) = session.step(Event::Completed);
    assert_eq!(action, Action::ActivateAccount);
    let (session, action) = session.step(failed("not ready"));
    let error = MigrationError {
        kind: ErrorKind::Finalization,
        operation: Operation::ActivateAccount,
        cause: "not ready".to_string(),
    };
    assert_eq!(action, Action::Abort { error: error.duplicate() });
    assert_eq!(error.destination(), DestinationState::Partial);
    assert_eq!(session.stage(), Stage::IdentityTransitioned);
    let (session, action) = session.step(Event::Completed);
    assert_eq!(action, Action::Abort { error });
    assert!(!session.is_finished());
}

#[test]
fn failed_deactivation_leaves_both_accounts_active() {
    let (session, _) = up_to_transition(WEB_DID);
    let (session, _) = session.step(Event::CredentialsRecommended { credentials: credentials() });
    let (session, _) = session.step(Event::Completed);
    let (session, _) = session.step(resolved(WEB_DID, NEW_URL));
    let (session, action) = session.step(Event::Completed);
    assert_eq!(action, Action::DeactivateAccount { delete_after: None });
    let (session, action) = session.step(failed("busy"));
    let error = MigrationError {
        kind: ErrorKind::Finalization,
        operation: Operation::DeactivateAccount,
        cause: "busy".to_string(),
    };
    assert_eq!(error.destination(), DestinationState::Active);
    assert_eq!(action, Action::Abort { error });
    assert_eq!(session.stage(), Stage::IdentityTransitioned);
    assert!(!session.is_finished());
}

#[test]
fn each_early_failure_has_its_class() {
    let cases: [(usize, Operation, ErrorKind, DestinationState); 8] = [
        (0, Operation::AuthenticateSource, ErrorKind::Authentication, DestinationState::Untouched),
        (1, Operation::ResolveIdentity, ErrorKind::IdentityResolution, DestinationState::Untouched),
        (2, Operation::DescribeServer, ErrorKind::ServerCapability, DestinationState::Untouched),
        (3, Operation::IssueServiceAuth, ErrorKind::Authorization, DestinationState::Untouched),
        (4, Operation::CreateAccount, ErrorKind::AccountProvisioning, DestinationState::Partial),
        (5, Operation::AuthenticateDestination, ErrorKind::AccountProvisioning, DestinationState::Partial),
        (
            6,
            Operation::ExportRepository,
            ErrorKind::DataTransfer { phase: TransferPhase::Repository },
            DestinationState::Partial,
        ),
        (
            7,
            Operation::ImportRepository,
            ErrorKind::DataTransfer { phase: TransferPhase::Repository },
            DestinationState::Partial,
        ),
    ];
    let script = || {
        vec![
            Event::Completed,
            resolved(PLC_DID, "https://old.example"),
            Event::ServerDescribed { did: SERVER_DID.to_string() },
            Event::ServiceAuthIssued { token: "jwt".to_string() },
            Event::Completed,
            Event::Completed,
            Event::RepositoryExported { archive: vec![] },
            Event::Completed,
        ]
    };
    for (good, operation, kind, left) in cases {
        let (mut session, _) = MigrationSession::start(plan(None));
        for event in script().into_iter().take(good) {
            session = session.step(event).0;
        }
        assert_eq!(session.awaiting(), Some(operation));
        let (session, action) = session.step(failed("boom"));
        let error = MigrationError { kind, operation, cause: "boom".to_string() };
        assert_eq!(error.destination(), left);
        assert_eq!(action, Action::Abort { error: error.duplicate() });
        assert_eq!(session.failure(), Some(error));
        assert!(!session.holds_service_token());
    }
}

#[test]
fn failed_preferences_have_their_class() {
    let session = up_to_blobs(PLC_DID, None);
    let (session, _) = session.step(Event::BlobsListed { content_ids: vec![], cursor: None });
    let (aborted, action) = session.step(failed("x"));
    assert_eq!(
        action,
        Action::Abort {
            error: MigrationError {
                kind: ErrorKind::DataTransfer { phase: TransferPhase::Preferences },
                operation: Operation::GetPreferences,
                cause: "x".to_string(),
            }
        }
    );
    assert_eq!(aborted.stage(), Stage::BlobsMigrated);
    let session = up_to_blobs(PLC_DID, None);
    let (session, _) = session.step(Event::BlobsListed { content_ids: vec![], cursor: None });
    let (session, _) = session.step(Event::PreferencesFetched { preferences: vec![] });
    let (_, action) = session.step(failed("y"));
    assert_eq!(
        action,
        Action::Abort {
            error: MigrationError {
                kind: ErrorKind::DataTransfer { phase: TransferPhase::Preferences },
                operation: Operation::PutPreferences,
                cause: "y".to_string(),
            }
        }
    );
}

#[test]
fn malformed_resolved_did_stops_the_migration() {
    let (session, _) = MigrationSession::start(plan(None));
    let (session, _) = session.step(Event::Completed);
    let (session, action) = session.step(resolved("did:PLC:abc", "https://old.example"));
    assert_eq!(
        action,
        Action::Abort {
            error: MigrationError {
                kind: ErrorKind::IdentityResolution,
                operation: Operation::ResolveIdentity,
                cause: "the resolved DID is malformed".to_string(),
            }
        }
    );
    assert_eq!(session.identity(), None);
    assert_eq!(session.stage(), Stage::Authenticated);
}

#[test]
fn outcome_that_does_not_fit_stops_the_migration() {
    let (session, _) = MigrationSession::start(plan(None));
    let (session, action) = session.step(Event::BlobFetched { payload: vec![] });
    assert_eq!(
        action,
        Action::Abort {
            error: MigrationError {
                kind: ErrorKind::Authentication,
                operation: Operation::AuthenticateSource,
                cause: "the outcome does not answer the pending operation".to_string(),
            }
        }
    );
    assert_eq!(session.stage(), Stage::Initial);
    let session = up_to_blobs(WEB_DID, None);
    let (session, action) = session.step(Event::Completed);
    assert_eq!(
        action,
        Action::Abort {
            error: MigrationError {
                kind: ErrorKind::DataTransfer { phase: TransferPhase::Blob },
                operation: Operation::ListBlobs,
                cause: "the outcome does not answer the pending operation".to_string(),
            }
        }
    );
    assert_eq!(session.stage(), Stage::RepositoryMigrated);
}

#[test]
fn session_knows_the_account_and_its_plan() {
    let session = up_to_blobs(WEB_DID, Some(5));
    let identity = session.identity().unwrap();
    assert_eq!(identity.did, WEB_DID);
    assert_eq!(identity.method, DidMethod::Web);
    assert_eq!(identity.endpoint, "https://old.example");
    assert_eq!(identity.handle, Some("alice.old.example".to_string()));
    assert_eq!(session.plan().destination_url(), NEW_URL);
    assert_eq!(session.plan().blob_page_limit(), Some(5));
}

#[test]
fn actions_name_their_operations() {
    assert_eq!(Action::DescribeServer.operation(), Some(Operation::DescribeServer));
    assert_eq!(
        Action::CorrectIdentityDocument { endpoint: NEW_URL.to_string() }.operation(),
        Some(Operation::PublishIdentityDocument)
    );
    assert_eq!(Action::VerifyIdentity { did: WEB_DID.to_string() }.operation(), Some(Operation::VerifyIdentity));
    assert_eq!(Action::Finished.operation(), None);
    let (session, action) = MigrationSession::start(plan(None));
    assert_eq!(action.operation(), session.awaiting());
    let (session, action) = session.step(failed("x"));
    assert_eq!(action.operation(), None);
    assert_eq!(session.awaiting(), None);
}
