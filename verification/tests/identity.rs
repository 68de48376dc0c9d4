use pds_migration::identity::{is_did, method_name, AccountIdentity, DidMethod};

#[test]
fn accepts_the_documented_dids() {
    for did in [
        "did:plc:z72i7hdynmk6r22z27h6tvur",
        "did:web:blueskyweb.xyz",
        "did:method:val:two",
        "did:m:v",
        "did:method::::val",
        "did:method:-:_:.",
        "did:key:zQ3shZc2QzApp2oymGvQbzP8eKheVshBHbU4ZYjeXqwSKEn6N",
    ] {
        assert!(is_did(did), "{did}");
    }
}

#[test]
fn refuses_what_is_no_did() {
    for text in [
        "did:METHOD:val",
        "did:m123:val",
        "DID:method:val",
        "did:method:",
        "did:method:val/two",
        "did:method:val?two",
        "did:method:val#two",
        "did:method:val:",
        "did:method:val%",
        "did::val",
        "did:",
        "",
        "alice.example.com",
    ] {
        assert!(!is_did(text), "{text}");
    }
}

#[test]
fn refuses_a_did_of_more_than_2048_characters() {
    let longest = format!("did:plc:{}", "a".repeat(2040));
    assert_eq!(longest.len(), 2048);
    assert!(is_did(&longest));
    let too_long = format!("did:plc:{}", "a".repeat(2041));
    assert!(!is_did(&too_long));
}

#[test]
fn tells_the_methods_apart() {
    assert_eq!(DidMethod::of("did:plc:z72i7hdynmk6r22z27h6tvur"), Some(DidMethod::Plc));
    assert_eq!(DidMethod::of("did:web:blueskyweb.xyz"), Some(DidMethod::Web));
    assert_eq!(DidMethod::of("did:key:zQ3shZc2QzApp2oymGvQbzP8eKheVshBHbU4ZYjeXqwSKEn6N"), Some(DidMethod::Unknown));
    assert_eq!(DidMethod::of("did:plcx:abc"), Some(DidMethod::Unknown));
    assert_eq!(DidMethod::of("did:pl:abc"), Some(DidMethod::Unknown));
    assert_eq!(DidMethod::of("plc"), None);
    assert_eq!(DidMethod::of("did:plc:"), None);
}

#[test]
fn classifies_a_prefix() {
    assert_eq!(DidMethod::from_prefix(&"did:plc".to_string()), DidMethod::Plc);
    assert_eq!(DidMethod::from_prefix(&"did:web".to_string()), DidMethod::Web);
    assert_eq!(DidMethod::from_prefix(&"plc".to_string()), DidMethod::Unknown);
    assert_eq!(DidMethod::from_prefix(&"did:PLC".to_string()), DidMethod::Unknown);
    assert_eq!(DidMethod::from_prefix(&"".to_string()), DidMethod::Unknown);
}

#[test]
fn names_the_methods() {
    assert_eq!(DidMethod::Plc.name(), "did:plc");
    assert_eq!(DidMethod::Web.name(), "did:web");
    assert_eq!(DidMethod::Unknown.name(), "unknown");
}

#[test]
fn resolves_an_identity_named_by_handle() {
    let identity = AccountIdentity::resolved(
        &"alice.old.example".to_string(),
        "did:plc:z72i7hdynmk6r22z27h6tvur".to_string(),
        "https://old.example".to_string(),
    );
    assert_eq!(
        identity,
        Some(AccountIdentity {
            did: "did:plc:z72i7hdynmk6r22z27h6tvur".to_string(),
            method: DidMethod::Plc,
            endpoint: "https://old.example".to_string(),
            handle: Some("alice.old.example".to_string()),
        })
    );
}

#[test]
fn resolves_an_identity_named_by_did() {
    let identity = AccountIdentity::resolved(
        &"did:web:alice.example".to_string(),
        "did:web:alice.example".to_string(),
        "https://old.example".to_string(),
    )
    .unwrap();
    assert_eq!(identity.method, DidMethod::Web);
    assert_eq!(identity.handle, None);
    assert_eq!(identity.duplicate(), identity);
}

#[test]
fn refuses_a_resolution_to_a_malformed_did() {
    let identity = AccountIdentity::resolved(
        &"alice.old.example".to_string(),
        "did:PLC:abc".to_string(),
        "https://old.example".to_string(),
    );
    assert_eq!(identity, None);
}

#[test]
fn spells_the_method_of_a_did() {
    assert_eq!(method_name("did:plc:z72i7hdynmk6r22z27h6tvur"), Some("did:plc".to_string()));
    assert_eq!(method_name("did:web:blueskyweb.xyz"), Some("did:web".to_string()));
    assert_eq!(method_name("did:method::::val"), Some("did:method".to_string()));
    assert_eq!(method_name("did:m:v"), Some("did:m".to_string()));
    assert_eq!(method_name("did:m:"), None);
    assert_eq!(method_name("alice.example.com"), None);
}
