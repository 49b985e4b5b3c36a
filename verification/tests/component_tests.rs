use obxr::auth::ChunkAuthenticator;
use obxr::bytes::{copy_range, ct_eq, wipe};
use obxr::container::{encode_container, read_body, read_header};
use obxr::errors::{ContainerError, KeyDerivationError};
use obxr::kdf;
use obxr::scheduler::{chunk_count, chunk_size};

fn mac_key() -> Vec<u8> {
    (0u8..32u8).collect()
}

#[test]
fn authenticator_is_deterministic_and_order_sensitive() {
    let chunk_a = vec![1u8, 2, 3];
    let chunk_b = vec![4u8, 5];

    let mut first = ChunkAuthenticator::new(mac_key());
    first.update(&chunk_a);
    first.update(&chunk_b);
    let tag_ab = first.finalize();
    assert_eq!(tag_ab.len(), 64);

    let mut again = ChunkAuthenticator::new(mac_key());
    again.update(&chunk_a);
    again.update(&chunk_b);
    assert_eq!(again.finalize(), tag_ab);
    assert!(again.verify(&tag_ab));

    let mut swapped = ChunkAuthenticator::new(mac_key());
    swapped.update(&chunk_b);
    swapped.update(&chunk_a);
    let tag_ba = swapped.finalize();
    assert_ne!(tag_ba, tag_ab);
    assert!(!swapped.verify(&tag_ab));
}

#[test]
fn chunk_boundaries_change_no_tag() {
    let data: Vec<u8> = (0..100u32).map(|i| i as u8).collect();

    let mut whole = ChunkAuthenticator::new(mac_key());
    whole.update(&data);
    let tag_whole = whole.finalize();

    let mut pieces = ChunkAuthenticator::new(mac_key());
    pieces.update(&data[..33].to_vec());
    pieces.update(&data[33..34].to_vec());
    pieces.update(&data[34..].to_vec());
    assert_eq!(pieces.finalize(), tag_whole);
}

#[test]
fn different_keys_give_different_tags() {
    let data = vec![7u8; 50];
    let mut a = ChunkAuthenticator::new(mac_key());
    a.update(&data);
    let mut b = ChunkAuthenticator::new(vec![0xffu8; 32]);
    b.update(&data);
    assert_ne!(a.finalize(), b.finalize());
}

#[test]
fn constant_time_comparison_decides_equality() {
    assert!(ct_eq(&vec![], &vec![]));
    assert!(ct_eq(&vec![1, 2, 3], &vec![1, 2, 3]));
    assert!(!ct_eq(&vec![1, 2, 3], &vec![1, 2, 4]));
    assert!(!ct_eq(&vec![1, 2, 3], &vec![1, 2]));
    assert!(!ct_eq(&vec![0, 2, 3], &vec![128, 2, 3]));
}

#[test]
fn wipe_zeroes_in_place() {
    let mut buf = vec![9u8; 40];
    wipe(&mut buf);
    assert_eq!(buf, vec![0u8; 40]);
}

#[test]
fn copy_range_copies_the_range() {
    let v: Vec<u8> = (0..10u8).collect();
    assert_eq!(copy_range(&v, 2, 5), vec![2, 3, 4]);
    assert_eq!(copy_range(&v, 0, 0), Vec::<u8>::new());
    assert_eq!(copy_range(&v, 0, 10), v);
}

#[test]
fn container_fields_round_trip() {
    let tag = vec![1u8; 64];
    let salt = vec![2u8; 16];
    let body = vec![3u8, 4, 5];
    let c = encode_container(&tag, &salt, &body);
    assert_eq!(c.len(), 83);
    let (tag2, salt2) = read_header(&c).unwrap();
    assert_eq!(tag2, tag);
    assert_eq!(salt2, salt);
    assert_eq!(read_body(&c).unwrap(), body);
}

#[test]
fn header_reads_reject_short_containers() {
    let c = vec![0u8; 79];
    assert_eq!(read_header(&c), Err(ContainerError::Truncated));
    assert_eq!(read_body(&c), Err(ContainerError::Truncated));
    let c = vec![0u8; 80];
    assert!(read_header(&c).is_ok());
    assert_eq!(read_body(&c).unwrap(), Vec::<u8>::new());
}

#[test]
fn chunk_arithmetic() {
    assert_eq!(chunk_size(0), 1);
    assert_eq!(chunk_size(4096), 4096);
    assert_eq!(chunk_count(0, 5), 0);
    assert_eq!(chunk_count(1, 5), 1);
    assert_eq!(chunk_count(5, 5), 1);
    assert_eq!(chunk_count(6, 5), 2);
    assert_eq!(chunk_count(10 * 1024 * 1024, 4 * 1024 * 1024), 3);
}

#[test]
fn derivation_is_deterministic_and_checks_inputs() {
    let pw = b"pw".to_vec();
    let salt: Vec<u8> = (0u8..16u8).collect();
    let a = kdf::derive(&pw, &salt, 64).unwrap();
    let b = kdf::derive(&pw, &salt, 64).unwrap();
    assert_eq!(a, b);
    assert_eq!(a.len(), 88);

    let other_salt = vec![1u8; 16];
    assert_ne!(kdf::derive(&pw, &other_salt, 64).unwrap(), a);
    assert_ne!(kdf::derive(&b"qw".to_vec(), &salt, 64).unwrap(), a);
    assert_ne!(kdf::derive(&pw, &salt, 128).unwrap(), a);

    assert_eq!(
        kdf::derive(&Vec::new(), &salt, 64),
        Err(KeyDerivationError::EmptyPassword)
    );
    assert_eq!(
        kdf::derive(&pw, &vec![0u8; 15], 64),
        Err(KeyDerivationError::BadSaltLength)
    );
    assert_eq!(
        kdf::derive(&pw, &salt, 0),
        Err(KeyDerivationError::ResourceExhausted)
    );
}
