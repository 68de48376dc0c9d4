use pds_migration::token::{account_creation, AuthorizationToken, JwtSessionManager, ServiceToken};

fn token() -> ServiceToken {
    ServiceToken {
        audience: "did:web:new.example".to_string(),
        operation: "com.atproto.server.createAccount".to_string(),
        expiry: None,
        bearer: "header.payload.signature".to_string(),
    }
}

#[test]
fn names_the_account_creation_call() {
    assert_eq!(account_creation(), "com.atproto.server.createAccount");
}

#[test]
fn token_is_good_for_its_own_pair() {
    let token = token();
    assert!(token.authorizes(&"did:web:new.example".to_string(), &account_creation()));
    assert_eq!(
        token.present(&"did:web:new.example".to_string(), &account_creation()),
        Some("header.payload.signature".to_string())
    );
}

#[test]
fn token_is_refused_for_another_audience() {
    let token = token();
    assert!(!token.authorizes(&"did:web:other.example".to_string(), &account_creation()));
    assert_eq!(token.present(&"did:web:other.example".to_string(), &account_creation()), None);
}

#[test]
fn token_is_refused_for_another_operation() {
    let token = token();
    let other = "com.atproto.repo.importRepo".to_string();
    assert!(!token.authorizes(&"did:web:new.example".to_string(), &other));
    assert_eq!(token.present(&"did:web:new.example".to_string(), &other), None);
}

#[test]
fn token_is_refused_where_both_differ() {
    let token = token();
    assert_eq!(
        token.present(&"did:web:other.example".to_string(), &"com.atproto.repo.importRepo".to_string()),
        None
    );
    assert_eq!(token.present(&"".to_string(), &"".to_string()), None);
}

#[test]
fn jwt_session_hands_out_what_it_was_made_with() {
    let session = JwtSessionManager::new(
        "did:plc:z72i7hdynmk6r22z27h6tvur".to_string(),
        "header.payload.signature".to_string(),
        "https://new.example",
    );
    assert_eq!(session.base_uri(), "https://new.example");
    assert_eq!(session.did(), Some("did:plc:z72i7hdynmk6r22z27h6tvur".to_string()));
    assert_eq!(
        session.authorization_token(false),
        Some(AuthorizationToken::Bearer("header.payload.signature".to_string()))
    );
    assert_eq!(
        session.authorization_token(true),
        Some(AuthorizationToken::Bearer("header.payload.signature".to_string()))
    );
}
