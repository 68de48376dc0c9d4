use pds_migration::keys::{encode_private_key, rotation_keys, RecoveryKeypair};

#[test]
fn encodes_bytes_as_lower_case_hex() {
    assert_eq!(encode_private_key(&[1, 2, 3, 15, 16]), "0102030f10");
    assert_eq!(encode_private_key(&[0x00, 0x9a, 0xbc, 0xde, 0xff]), "009abcdeff");
    assert_eq!(encode_private_key(b"Hello world!"), "48656c6c6f20776f726c6421");
    assert_eq!(encode_private_key(&[]), "");
}

#[test]
fn shows_the_secret_of_a_key_pair_in_hex() {
    let keypair = RecoveryKeypair { secret: vec![0xab, 0x01, 0xf0], did_key: "did:key:zExample".to_string() };
    assert_eq!(keypair.private_key_hex(), "ab01f0");
}

#[test]
fn generates_a_key_pair_each_time() {
    let first = RecoveryKeypair::generate();
    let second = RecoveryKeypair::generate();
    assert_eq!(first.secret.len(), 32);
    assert_eq!(second.secret.len(), 32);
    assert!(first.did_key.len() > 8);
    assert_eq!(first.private_key_hex().len(), 64);
    assert!(first.did_key.starts_with("did:key:zQ3s"));
    assert!(second.did_key.starts_with("did:key:"));
    assert_ne!(first.secret, second.secret);
    assert_ne!(first.did_key, second.did_key);
}

fn keys(names: &[&str]) -> Vec<String> {
    names.iter().map(|name| name.to_string()).collect()
}

#[test]
fn submits_the_new_the_recommended_and_the_earlier_keys() {
    let submitted = rotation_keys(
        "did:key:new".to_string(),
        Some(keys(&["did:key:server"])),
        keys(&["did:key:old-server", "did:key:old-recovery"]),
    );
    assert_eq!(submitted, keys(&["did:key:new", "did:key:server", "did:key:old-server", "did:key:old-recovery"]));
}

#[test]
fn submits_the_new_key_alone_where_there_is_no_other() {
    assert_eq!(rotation_keys("did:key:new".to_string(), None, vec![]), keys(&["did:key:new"]));
    assert_eq!(rotation_keys("did:key:new".to_string(), Some(vec![]), vec![]), keys(&["did:key:new"]));
}

#[test]
fn submits_an_earlier_key_that_is_not_recommended() {
    let submitted = rotation_keys("did:key:new".to_string(), None, keys(&["did:key:old"]));
    assert_eq!(submitted, keys(&["did:key:new", "did:key:old"]));
}

#[test]
fn submits_each_key_once() {
    let submitted = rotation_keys(
        "did:key:a".to_string(),
        Some(keys(&["did:key:b", "did:key:a", "did:key:b"])),
        keys(&["did:key:c", "did:key:b", "did:key:c", "did:key:a"]),
    );
    assert_eq!(submitted, keys(&["did:key:a", "did:key:b", "did:key:c"]));
}
