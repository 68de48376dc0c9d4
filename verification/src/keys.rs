//! The recovery key of a directory-based identity and the rotation keys
//! that a migration submits.

use vstd::prelude::*;

verus! {

/// The lower-case hexadecimal digit of a value below 16.
pub open spec fn hex_digit(value: int) -> char {
    seq!['0', '1', '2', '3', '4', '5', '6', '7', '8', '9', 'a', 'b', 'c', 'd', 'e', 'f'][value]
}

/// Two lower-case hexadecimal digits for each byte, the high one first.
pub open spec fn hex_string(bytes: Seq<u8>) -> Seq<char> {
    Seq::new(
        2 * bytes.len(),
        |i: int|
            if i % 2 == 0 {
                hex_digit(bytes[i / 2] as int / 16)
            } else {
                hex_digit(bytes[i / 2] as int % 16)
            },
    )
}

/// Calls `hex::encode`.
///
/// Trusted: the result holds two lower-case hexadecimal digits for each
/// byte of the input, in the order of the input, the high digit first.
#[verifier::external_body]
fn hex_encode(bytes: &[u8]) -> (text: String)
    ensures
        text@ == hex_string(bytes@),
{
    hex::encode(bytes)
}

/// Makes a secp256k1 key pair with `atrium_crypto::keypair::Keypair::create`
/// from the thread's random number generator, and returns what `Export::export`
/// and `Did::did` give for it: the secret scalar and the `did:key` of the
/// public key.
///
/// Trusted: the secret has 32 bytes, and the second string is `did:key:`
/// followed by the text of the key. Nothing else: each call draws a new key.
#[verifier::external_body]
fn fresh_secp256k1_key() -> (key: (Vec<u8>, String))
    ensures
        key.0@.len() == 32,
        is_did_key(key.1@),
{
    let keypair = atrium_crypto::keypair::Secp256k1Keypair::create(&mut rand::thread_rng());
    (
        atrium_crypto::keypair::Export::export(&keypair),
        atrium_crypto::keypair::Did::did(&keypair),
    )
}

/// Whether a text is `did:key:` followed by at least one more character.
pub open spec fn is_did_key(text: Seq<char>) -> bool {
    text.len() > 8 && text.take(8) == seq!['d', 'i', 'd', ':', 'k', 'e', 'y', ':']
}

/// The text in which a secret key is shown to the operator.
pub fn encode_private_key(secret: &[u8]) -> (text: String)
    ensures
        text@ == hex_string(secret@),
{
    hex_encode(secret)
}

/// A key pair that can take an identity back. Its secret is made on this
/// machine and leaves it only by being shown to the operator.
#[derive(Clone, Debug, PartialEq, Eq)]
pub struct RecoveryKeypair {
    /// The secret scalar.
    pub secret: Vec<u8>,
    /// The public key as a `did:key`.
    pub did_key: String,
}

pub struct RecoveryKeypairView {
    pub secret: Seq<u8>,
    pub did_key: Seq<char>,
}

impl View for RecoveryKeypair {
    type V = RecoveryKeypairView;

    open spec fn view(&self) -> RecoveryKeypairView {
        RecoveryKeypairView { secret: self.secret@, did_key: self.did_key@ }
    }
}

impl RecoveryKeypair {
    /// A new random key pair: a secret of 32 bytes, and the public key as
    /// a `did:key`.
    pub fn generate() -> (keypair: RecoveryKeypair)
        ensures
            keypair@.secret.len() == 32,
            is_did_key(keypair@.did_key),
    {
        let (secret, did_key) = fresh_secp256k1_key();
        RecoveryKeypair { secret, did_key }
    }

    /// The secret as the operator is asked to store it.
    pub fn private_key_hex(&self) -> (text: String)
        ensures
            text@ == hex_string(self@.secret),
    {
        hex_encode(self.secret.as_slice())
    }
}

/// A list without the later occurrences of what occurs in it before.
pub open spec fn without_repeats(keys: Seq<Seq<char>>) -> Seq<Seq<char>>
    decreases keys.len(),
{
    if keys.len() == 0 {
        Seq::empty()
    } else {
        let before = without_repeats(keys.drop_last());
        if before.contains(keys.last()) {
            before
        } else {
            before.push(keys.last())
        }
    }
}

/// The keys that may sign for a migrated identity, with repeats: the new
/// recovery key, then the keys that the destination recommends, then the
/// keys that the identity had before.
pub open spec fn candidate_keys(
    new_key: Seq<char>,
    recommended: Option<Seq<Seq<char>>>,
    earlier: Seq<Seq<char>>,
) -> Seq<Seq<char>> {
    seq![new_key] + (match recommended {
        Some(keys) => keys,
        None => Seq::empty(),
    }) + earlier
}

/// The rotation keys of a migrated identity: the candidates, each once, in
/// the order in which they first occur.
pub open spec fn rotation_key_list(
    new_key: Seq<char>,
    recommended: Option<Seq<Seq<char>>>,
    earlier: Seq<Seq<char>>,
) -> Seq<Seq<char>> {
    without_repeats(candidate_keys(new_key, recommended, earlier))
}

/// Whether `key` is among `keys`.
fn holds(keys: &Vec<String>, key: &String) -> (r: bool)
    ensures
        r == keys.deep_view().contains(key@),
{
    let mut i: usize = 0;
    while i < keys.len()
        invariant
            i <= keys.len(),
            forall|k: int| 0 <= k < i ==> keys.deep_view()[k] != key@,
        decreases keys.len() - i,
    {
        if keys[i] == *key {
            assert(keys.deep_view()[i as int] == key@);
            return true;
        }
        i += 1;
    }
    false
}

/// Builds the rotation keys to submit.
pub fn rotation_keys(new_key: String, recommended: Option<Vec<String>>, earlier: Vec<String>) -> (keys: Vec<
    String,
>)
    ensures
        keys.deep_view() == rotation_key_list(new_key@, recommended.deep_view(), earlier.deep_view()),
{
    let ghost candidates = candidate_keys(new_key@, recommended.deep_view(), earlier.deep_view());
    let mut all: Vec<String> = Vec::new();
    all.push(new_key);
    match recommended {
        Some(mut others) => {
            all.append(&mut others);
        },
        None => {},
    }
    let mut earlier = earlier;
    all.append(&mut earlier);
    assert(all.deep_view() =~= candidates);
    let mut keys: Vec<String> = Vec::new();
    assert(keys.deep_view() =~= without_repeats(candidates.take(0)));
    let mut i: usize = 0;
    while i < all.len()
        invariant
            i <= all.len(),
            all.deep_view() == candidates,
            keys.deep_view() == without_repeats(candidates.take(i as int)),
        decreases all.len() - i,
    {
        let ghost before = keys.deep_view();
        proof {
            assert(candidates.take(i + 1).drop_last() =~= candidates.take(i as int));
            assert(candidates.take(i + 1).last() == all[i as int]@);
        }
        if !holds(&keys, &all[i]) {
            keys.push(all[i].clone());
            assert(keys.deep_view() =~= before.push(all[i as int]@));
        }
        i += 1;
    }
    assert(candidates.take(all.len() as int) =~= candidates);
    keys
}

/// To drop the repeats of a list changes neither what is in it nor what it
/// begins with, and leaves nothing in it twice.
pub proof fn lemma_without_repeats(keys: Seq<Seq<char>>)
    ensures
        without_repeats(keys).to_set() == keys.to_set(),
        without_repeats(keys).no_duplicates(),
        keys.len() > 0 ==> without_repeats(keys).len() > 0 && without_repeats(keys)[0] == keys[0],
    decreases keys.len(),
{
    let kept = without_repeats(keys);
    if keys.len() == 0 {
        assert(kept.to_set() =~= keys.to_set());
    } else {
        let shorter = keys.drop_last();
        let before = without_repeats(shorter);
        lemma_without_repeats(shorter);
        assert forall|k: Seq<char>| kept.to_set().contains(k) <==> keys.to_set().contains(k) by {
            if kept.contains(k) {
                let i = choose|i: int| 0 <= i < kept.len() && kept[i] == k;
                if i < before.len() {
                    assert(before.contains(k));
                    assert(shorter.to_set().contains(k));
                    let j = choose|j: int| 0 <= j < shorter.len() && shorter[j] == k;
                    assert(keys[j] == k);
                } else {
                    assert(keys[keys.len() - 1] == k);
                }
            }
            if keys.contains(k) {
                let j = choose|j: int| 0 <= j < keys.len() && keys[j] == k;
                if j < shorter.len() {
                    assert(shorter[j] == k);
                    assert(shorter.to_set().contains(k));
                    assert(before.to_set().contains(k));
                    let i = choose|i: int| 0 <= i < before.len() && before[i] == k;
                    assert(kept[i] == k);
                } else if before.contains(k) {
                } else {
                    assert(kept[kept.len() - 1] == k);
                }
            }
        }
        assert(kept.to_set() =~= keys.to_set());
        if shorter.len() > 0 {
            assert(kept[0] == before[0]);
            assert(shorter[0] == keys[0]);
        }
    }
}

/// The submitted keys, as a set, are the new recovery key, the keys that
/// the destination recommends, and the keys that the identity had before:
/// none is lost and none is added. None is submitted twice, and the new key
/// comes first.
pub proof fn lemma_rotation_keys_are_new_recommended_and_earlier(
    new_key: Seq<char>,
    recommended: Option<Seq<Seq<char>>>,
    earlier: Seq<Seq<char>>,
)
    ensures
        rotation_key_list(new_key, recommended, earlier).to_set() == (match recommended {
            Some(keys) => keys.to_set(),
            None => Set::empty(),
        }).union(earlier.to_set()).insert(new_key),
        rotation_key_list(new_key, recommended, earlier).no_duplicates(),
        rotation_key_list(new_key, recommended, earlier)[0] == new_key,
{
    let all = candidate_keys(new_key, recommended, earlier);
    let advised = match recommended {
        Some(keys) => keys,
        None => Seq::empty(),
    };
    lemma_without_repeats(all);
    assert(all[0] == new_key);
    assert forall|k: Seq<char>| all.to_set().contains(k) <==> advised.to_set().union(
        earlier.to_set(),
    ).insert(new_key).contains(k) by {
        if all.contains(k) {
            let i = choose|i: int| 0 <= i < all.len() && all[i] == k;
            if i == 0 {
            } else if i <= advised.len() {
                assert(advised[i - 1] == k);
            } else {
                assert(earlier[i - 1 - advised.len()] == k);
            }
        }
        if advised.contains(k) {
            let j = choose|j: int| 0 <= j < advised.len() && advised[j] == k;
            assert(all[j + 1] == k);
        }
        if earlier.contains(k) {
            let j = choose|j: int| 0 <= j < earlier.len() && earlier[j] == k;
            assert(all[j + 1 + advised.len()] == k);
        }
    }
    assert(all.to_set() =~= advised.to_set().union(earlier.to_set()).insert(new_key));
    assert(Seq::<Seq<char>>::empty().to_set() =~= Set::<Seq<char>>::empty());
}

} // verus!
