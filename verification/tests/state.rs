use app_backend::{Error, Identity, State};
use libsecp256k1::{Message, PublicKey, SecretKey};

fn secret(last: u8) -> [u8; 32] {
    let mut bytes = [0u8; 32];
    bytes[31] = last;
    bytes
}

fn keccak(data: &[u8]) -> [u8; 32] {
    let mut digest = [0u8; 32];
    keccak_hash::keccak_256(data, &mut digest);
    digest
}

fn sign_identity(identity: &Identity, secret: &[u8; 32]) -> Vec<u8> {
    let message = Message::parse(&keccak(identity.as_slice()));
    let key = SecretKey::parse(secret).unwrap();
    let (signature, recovery_id) = libsecp256k1::sign(&message, &key);
    let mut bytes = signature.serialize().to_vec();
    bytes.push(recovery_id.serialize() + 27);
    bytes
}

fn address_of_secret(secret: &[u8; 32]) -> [u8; 20] {
    let key = SecretKey::parse(secret).unwrap();
    let digest = keccak(&PublicKey::from_secret_key(&key).serialize());
    let mut address = [0u8; 20];
    address.copy_from_slice(&digest[12..]);
    address
}

fn alice() -> Identity {
    Identity::from_slice(&[1, 2, 3, 4, 5, 6, 7, 8, 9, 2])
}

fn bob() -> Identity {
    Identity::from_slice(&[9, 8, 7, 6, 5, 4, 3, 2, 1, 2])
}

#[test]
fn a_new_state_knows_nobody() {
    let state = State::new();
    assert_eq!(state.address_of(&alice()), None);
    assert!(state.list_my_documents(&alice()).is_empty());
    let by_default = State::default();
    assert_eq!(by_default.address_of(&alice()), None);
    assert!(by_default.list_my_documents(&alice()).is_empty());
}

#[test]
fn authenticate_store_and_list() {
    let mut state = State::new();
    let caller = alice();
    let key = secret(1);
    assert_eq!(state.authorize(&caller, &sign_identity(&caller, &key)), Ok(()));
    let expected: [u8; 20] = [
        125, 110, 153, 187, 138, 191, 140, 192, 19, 187, 14, 145, 45, 11, 23, 101, 150, 254, 123, 136,
    ];
    assert_eq!(state.address_of(&caller), Some(expected));
    assert_eq!(state.store_encrypted_document(&caller, b"doc1".to_vec()), Ok(()));
    assert_eq!(state.store_encrypted_document(&caller, b"doc2".to_vec()), Ok(()));
    assert_eq!(state.list_my_documents(&caller), vec![b"doc1".to_vec(), b"doc2".to_vec()]);
}

#[test]
fn authentication_binds_the_address_of_the_key() {
    let mut state = State::new();
    for last in [2u8, 3, 250] {
        let caller = Identity::from_slice(&[last, 0, 1]);
        let key = secret(last);
        assert_eq!(state.authorize(&caller, &sign_identity(&caller, &key)), Ok(()));
        assert_eq!(state.address_of(&caller), Some(address_of_secret(&key)));
    }
    assert_eq!(state.address_of(&Identity::from_slice(&[2, 0, 1])), Some(address_of_secret(&secret(2))));
}

#[test]
fn wrong_length_never_changes_the_users() {
    let mut state = State::new();
    let caller = alice();
    let key = secret(11);
    let good = sign_identity(&caller, &key);
    assert_eq!(state.authorize(&caller, &good[..64]), Err(Error::InvalidSignatureLength));
    assert_eq!(state.authorize(&caller, &[]), Err(Error::InvalidSignatureLength));
    assert_eq!(state.address_of(&caller), None);

    assert_eq!(state.authorize(&caller, &good), Ok(()));
    let mut long = good.clone();
    long.push(27);
    assert_eq!(state.authorize(&caller, &long), Err(Error::InvalidSignatureLength));
    assert_eq!(state.address_of(&caller), Some(address_of_secret(&key)));

    assert_eq!(state.authorize(&Identity::anonymous(), &[1, 2, 3]), Err(Error::InvalidSignatureLength));
}

#[test]
fn the_anonymous_caller_is_never_authenticated() {
    let mut state = State::new();
    let nobody = Identity::anonymous();
    let key = secret(12);
    let signature = sign_identity(&nobody, &key);
    assert_eq!(state.authorize(&nobody, &signature), Err(Error::Unauthenticated));
    assert_eq!(state.address_of(&nobody), None);
    assert_eq!(state.store_encrypted_document(&nobody, b"doc".to_vec()), Err(Error::Unauthenticated));
    assert!(state.list_my_documents(&nobody).is_empty());
}

#[test]
fn a_failed_authentication_keeps_the_earlier_address() {
    let mut state = State::new();
    let caller = alice();
    let key = secret(13);
    let good = sign_identity(&caller, &key);
    assert_eq!(state.authorize(&caller, &good), Ok(()));

    let mut bad_id = good.clone();
    bad_id[64] = 31;
    assert_eq!(state.authorize(&caller, &bad_id), Err(Error::InvalidRecoveryId));
    assert_eq!(state.authorize(&caller, &[0xFFu8; 65]), Err(Error::MalformedSignature));
    assert_eq!(state.authorize(&caller, &[0u8; 65]), Err(Error::RecoveryFailed));
    assert_eq!(state.address_of(&caller), Some(address_of_secret(&key)));
}

#[test]
fn the_last_authentication_wins() {
    let mut state = State::new();
    let caller = alice();
    let first = secret(21);
    let second = secret(22);

    assert_eq!(state.authorize(&caller, &sign_identity(&caller, &first)), Ok(()));
    assert_eq!(state.store_encrypted_document(&caller, b"old".to_vec()), Ok(()));
    assert_eq!(state.list_my_documents(&caller), vec![b"old".to_vec()]);

    assert_eq!(state.authorize(&caller, &sign_identity(&caller, &second)), Ok(()));
    assert_eq!(state.address_of(&caller), Some(address_of_secret(&second)));
    assert!(state.list_my_documents(&caller).is_empty());
    assert_eq!(state.store_encrypted_document(&caller, b"new".to_vec()), Ok(()));
    assert_eq!(state.list_my_documents(&caller), vec![b"new".to_vec()]);

    assert_eq!(state.authorize(&caller, &sign_identity(&caller, &first)), Ok(()));
    assert_eq!(state.address_of(&caller), Some(address_of_secret(&first)));
    assert_eq!(state.list_my_documents(&caller), vec![b"old".to_vec()]);
}

#[test]
fn store_before_authentication_is_refused() {
    let mut state = State::new();
    assert_eq!(state.store_encrypted_document(&alice(), b"doc".to_vec()), Err(Error::NotAuthenticated));
    assert_eq!(
        state.store_encrypted_document(&Identity::anonymous(), b"doc".to_vec()),
        Err(Error::Unauthenticated)
    );

    let other = bob();
    let key = secret(31);
    assert_eq!(state.authorize(&other, &sign_identity(&other, &key)), Ok(()));
    assert_eq!(state.store_encrypted_document(&alice(), b"doc".to_vec()), Err(Error::NotAuthenticated));
    assert!(state.list_my_documents(&other).is_empty());
    assert!(state.list_my_documents(&alice()).is_empty());
}

#[test]
fn list_returns_every_stored_document_in_order() {
    let mut state = State::new();
    let caller = alice();
    let other = bob();
    assert_eq!(state.authorize(&caller, &sign_identity(&caller, &secret(41))), Ok(()));
    assert_eq!(state.authorize(&other, &sign_identity(&other, &secret(42))), Ok(()));

    let mut expected: Vec<Vec<u8>> = Vec::new();
    for n in 0u8..20 {
        let document = vec![n; n as usize];
        assert_eq!(state.store_encrypted_document(&caller, document.clone()), Ok(()));
        assert_eq!(state.store_encrypted_document(&other, vec![0xEE, n]), Ok(()));
        expected.push(document);
        assert_eq!(state.list_my_documents(&caller), expected);
    }
    assert_eq!(state.list_my_documents(&other).len(), 20);
    assert_eq!(state.list_my_documents(&other)[19], vec![0xEE, 19]);
}

#[test]
fn listing_changes_nothing() {
    let mut state = State::new();
    let caller = alice();
    assert_eq!(state.authorize(&caller, &sign_identity(&caller, &secret(51))), Ok(()));
    assert_eq!(state.store_encrypted_document(&caller, vec![]), Ok(()));
    let first = state.list_my_documents(&caller);
    let second = state.list_my_documents(&caller);
    assert_eq!(first, vec![Vec::<u8>::new()]);
    assert_eq!(first, second);
    assert!(state.list_my_documents(&bob()).is_empty());
    assert_eq!(state.address_of(&bob()), None);
}
