use app_backend::bytes::{bytes_equal, copy_bytes, copy_documents};
use app_backend::directory::IdentityDirectory;
use app_backend::documents::DocumentStore;
use app_backend::Identity;

#[test]
fn the_anonymous_identity_is_one_byte() {
    let nobody = Identity::anonymous();
    assert_eq!(nobody.as_slice(), &[4u8]);
    assert_eq!(nobody.as_slice(), candid::Principal::anonymous().as_slice());
    assert!(nobody.is_anonymous());
}

#[test]
fn other_identities_are_not_anonymous() {
    assert!(Identity::from_slice(&[4]).is_anonymous());
    assert!(!Identity::from_slice(&[]).is_anonymous());
    assert!(!Identity::from_slice(&[5]).is_anonymous());
    assert!(!Identity::from_slice(&[4, 0]).is_anonymous());
    assert!(!Identity::from_slice(&[0, 4]).is_anonymous());
}

#[test]
fn identities_from_text() {
    assert_eq!(Identity::from_text("2vxsx-fae").unwrap().as_slice(), &[4u8]);
    assert!(Identity::from_text("2vxsx-fae").unwrap().is_anonymous());
    assert!(Identity::from_text("aaaaa-aa").unwrap().as_slice().is_empty());
    let service = Identity::from_text("s55qq-oqaaa-aaaaa-aaakq-cai").unwrap();
    assert_eq!(
        service.as_slice(),
        candid::Principal::from_text("s55qq-oqaaa-aaaaa-aaakq-cai").unwrap().as_slice()
    );
    assert!(Identity::from_text("s55qq-oqaaa-aaaaa-aaakq-caj").is_none());
    assert!(Identity::from_text("not a principal").is_none());
    assert!(Identity::from_text("").is_none());
}

#[test]
fn identities_compare_by_their_bytes() {
    let a = Identity::from_slice(&[1, 2, 3]);
    let b = Identity::from_slice(&[1, 2, 3]);
    let c = Identity::from_slice(&[1, 2]);
    let d = Identity::from_slice(&[1, 2, 4]);
    assert!(a.same_as(&b));
    assert!(!a.same_as(&c));
    assert!(!c.same_as(&a));
    assert!(!a.same_as(&d));
    assert!(a.same_as(&a.clone()));
    assert_eq!(a.clone().as_slice(), &[1u8, 2, 3]);
}

#[test]
fn byte_strings_compare_and_copy() {
    assert!(bytes_equal(&[], &[]));
    assert!(bytes_equal(&[1, 2], &[1, 2]));
    assert!(!bytes_equal(&[1, 2], &[1, 3]));
    assert!(!bytes_equal(&[1, 2], &[1]));
    assert!(!bytes_equal(&[], &[0]));
    assert_eq!(copy_bytes(&[7, 8, 9]), vec![7, 8, 9]);
    assert_eq!(copy_bytes(&[]), Vec::<u8>::new());
    let documents = vec![vec![1u8], vec![], vec![2, 3]];
    assert_eq!(copy_documents(&documents), documents);
    assert_eq!(copy_documents(&Vec::new()), Vec::<Vec<u8>>::new());
}

#[test]
fn the_directory_keeps_the_last_address() {
    let mut directory = IdentityDirectory::new();
    let a = Identity::from_slice(&[1]);
    let b = Identity::from_slice(&[2]);
    assert_eq!(directory.get(&a), None);
    directory.insert(a.clone(), [1u8; 20]);
    directory.insert(b.clone(), [2u8; 20]);
    assert_eq!(directory.get(&a), Some([1u8; 20]));
    assert_eq!(directory.get(&b), Some([2u8; 20]));
    directory.insert(a.clone(), [3u8; 20]);
    assert_eq!(directory.get(&a), Some([3u8; 20]));
    assert_eq!(directory.get(&b), Some([2u8; 20]));
    assert_eq!(directory.get(&Identity::from_slice(&[1, 0])), None);
}

#[test]
fn the_store_appends_under_each_address() {
    let mut store = DocumentStore::new();
    assert!(store.get(&[1u8; 20]).is_empty());
    store.append([1u8; 20], vec![10]);
    store.append([2u8; 20], vec![20]);
    store.append([1u8; 20], vec![11]);
    store.append([1u8; 20], vec![10]);
    assert_eq!(store.get(&[1u8; 20]), vec![vec![10u8], vec![11], vec![10]]);
    assert_eq!(store.get(&[2u8; 20]), vec![vec![20u8]]);
    assert!(store.get(&[3u8; 20]).is_empty());
}
