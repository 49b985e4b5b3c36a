use obxr::engine::{box_bytes, box_with_salt, unbox_bytes};
use obxr::errors::{BoxError, ContainerError, KeyDerivationError, UnboxError};

const THREADS: usize = 4;
const MEM: usize = 1 << 20;
const COST: u32 = 64;

fn sample_plaintext(len: usize) -> Vec<u8> {
    (0..len).map(|i| (i * 31 + i / 257) as u8).collect()
}

fn sample_salt() -> Vec<u8> {
    (0u8..16u8).collect()
}

#[test]
fn round_trip_is_byte_exact() {
    let plain = sample_plaintext(5000);
    let password = b"correct horse battery staple".to_vec();
    let salt = sample_salt();
    let boxed = box_with_salt(&plain, &password, &salt, THREADS, MEM, COST).unwrap();
    assert_eq!(boxed.len(), 80 + plain.len());
    let opened = unbox_bytes(&boxed, &password, THREADS, MEM, COST).unwrap();
    assert_eq!(opened, plain);
}

#[test]
fn round_trip_empty_plaintext() {
    let plain: Vec<u8> = Vec::new();
    let password = b"pw".to_vec();
    let salt = sample_salt();
    let boxed = box_with_salt(&plain, &password, &salt, THREADS, MEM, COST).unwrap();
    assert_eq!(boxed.len(), 80);
    let opened = unbox_bytes(&boxed, &password, THREADS, MEM, COST).unwrap();
    assert_eq!(opened, plain);
}

#[test]
fn round_trip_single_byte() {
    let plain = vec![0xabu8];
    let password = b"p".to_vec();
    let salt = sample_salt();
    let boxed = box_with_salt(&plain, &password, &salt, THREADS, 1, COST).unwrap();
    let opened = unbox_bytes(&boxed, &password, THREADS, 1, COST).unwrap();
    assert_eq!(opened, plain);
}

#[test]
fn tampering_with_any_tag_byte_is_detected() {
    let plain = sample_plaintext(300);
    let password = b"pw".to_vec();
    let salt = sample_salt();
    let boxed = box_with_salt(&plain, &password, &salt, THREADS, MEM, COST).unwrap();
    for pos in 0..64 {
        let mut tampered = boxed.clone();
        tampered[pos] ^= 1 << (pos % 8);
        let r = unbox_bytes(&tampered, &password, THREADS, MEM, COST);
        assert!(matches!(r, Err(UnboxError::Authentication)), "tag byte {}", pos);
    }
}

#[test]
fn tampering_with_body_bits_is_detected() {
    let plain = sample_plaintext(300);
    let password = b"pw".to_vec();
    let salt = sample_salt();
    let boxed = box_with_salt(&plain, &password, &salt, THREADS, MEM, COST).unwrap();
    for k in 0..8 {
        let pos = 80 + k * 37;
        let mut tampered = boxed.clone();
        tampered[pos] ^= 1 << k;
        let r = unbox_bytes(&tampered, &password, THREADS, MEM, COST);
        assert!(matches!(r, Err(UnboxError::Authentication)), "body byte {}", pos);
    }
}

#[test]
fn truncating_the_body_is_detected() {
    let plain = sample_plaintext(300);
    let password = b"pw".to_vec();
    let salt = sample_salt();
    let mut boxed = box_with_salt(&plain, &password, &salt, THREADS, MEM, COST).unwrap();
    boxed.truncate(boxed.len() - 1);
    let r = unbox_bytes(&boxed, &password, THREADS, MEM, COST);
    assert!(matches!(r, Err(UnboxError::Authentication)));
}

#[test]
fn wrong_password_fails_authentication() {
    let plain = sample_plaintext(200);
    let password = b"right".to_vec();
    let salt = sample_salt();
    let boxed = box_with_salt(&plain, &password, &salt, THREADS, MEM, COST).unwrap();
    let wrong = b"wrong".to_vec();
    let r = unbox_bytes(&boxed, &wrong, THREADS, MEM, COST);
    assert!(matches!(r, Err(UnboxError::Authentication)));
}

#[test]
fn wrong_cost_fails_authentication() {
    let plain = sample_plaintext(200);
    let password = b"pw".to_vec();
    let salt = sample_salt();
    let boxed = box_with_salt(&plain, &password, &salt, THREADS, MEM, COST).unwrap();
    let r = unbox_bytes(&boxed, &password, THREADS, MEM, COST * 2);
    assert!(matches!(r, Err(UnboxError::Authentication)));
}

#[test]
fn boxing_is_deterministic_given_the_salt() {
    let plain = sample_plaintext(400);
    let password = b"pw".to_vec();
    let salt = sample_salt();
    let a = box_with_salt(&plain, &password, &salt, THREADS, MEM, COST).unwrap();
    let b = box_with_salt(&plain, &password, &salt, THREADS, MEM, COST).unwrap();
    assert_eq!(a, b);
}

#[test]
fn budgets_change_nothing_but_time() {
    let plain = sample_plaintext(4000);
    let password = b"pw".to_vec();
    let salt = sample_salt();
    let reference = box_with_salt(&plain, &password, &salt, 4, 1 << 20, COST).unwrap();
    for (threads, mem) in [(1usize, 1usize), (2, 7), (8, 4000), (1, 4096), (16, 1 << 30)] {
        let other = box_with_salt(&plain, &password, &salt, threads, mem, COST).unwrap();
        assert_eq!(other, reference, "threads {} mem {}", threads, mem);
        let opened = unbox_bytes(&reference, &password, threads, mem, COST).unwrap();
        assert_eq!(opened, plain, "threads {} mem {}", threads, mem);
    }
}

#[test]
fn short_containers_are_rejected_as_truncated() {
    let password = b"pw".to_vec();
    for len in [0usize, 1, 40, 79] {
        let c = vec![7u8; len];
        let r = unbox_bytes(&c, &password, THREADS, MEM, COST);
        assert!(
            matches!(r, Err(UnboxError::Container(ContainerError::Truncated))),
            "length {}",
            len
        );
    }
    let c = vec![7u8; 80];
    let r = unbox_bytes(&c, &password, THREADS, MEM, COST);
    assert!(matches!(r, Err(UnboxError::Authentication)));
}

#[test]
fn empty_password_is_rejected() {
    let plain = sample_plaintext(10);
    let password: Vec<u8> = Vec::new();
    let salt = sample_salt();
    let r = box_with_salt(&plain, &password, &salt, THREADS, MEM, COST);
    assert!(matches!(
        r,
        Err(BoxError::KeyDerivation(KeyDerivationError::EmptyPassword))
    ));
    let r = box_bytes(&plain, &password, THREADS, MEM, COST);
    assert!(matches!(
        r,
        Err(BoxError::KeyDerivation(KeyDerivationError::EmptyPassword))
    ));
    let c = vec![0u8; 200];
    let r = unbox_bytes(&c, &password, THREADS, MEM, COST);
    assert!(matches!(
        r,
        Err(UnboxError::KeyDerivation(KeyDerivationError::EmptyPassword))
    ));
}

#[test]
fn wrong_salt_length_is_rejected() {
    let plain = sample_plaintext(10);
    let password = b"pw".to_vec();
    for len in [0usize, 15, 17, 32] {
        let salt = vec![1u8; len];
        let r = box_with_salt(&plain, &password, &salt, THREADS, MEM, COST);
        assert!(
            matches!(r, Err(BoxError::KeyDerivation(KeyDerivationError::BadSaltLength))),
            "salt length {}",
            len
        );
    }
}

#[test]
fn hopeless_derivation_costs_are_rejected() {
    let plain = sample_plaintext(10);
    let password = b"pw".to_vec();
    let salt = sample_salt();
    for cost in [0u32, 1, 7, u32::MAX] {
        let r = box_with_salt(&plain, &password, &salt, THREADS, MEM, cost);
        assert!(
            matches!(
                r,
                Err(BoxError::KeyDerivation(KeyDerivationError::ResourceExhausted))
            ),
            "cost {}",
            cost
        );
    }
}

#[test]
fn cost_floor_is_exact() {
    let plain = sample_plaintext(20);
    let password = b"pw".to_vec();
    let salt = sample_salt();
    let at_floor = box_with_salt(&plain, &password, &salt, THREADS, MEM, 8).unwrap();
    let opened = unbox_bytes(&at_floor, &password, THREADS, MEM, 8).unwrap();
    assert_eq!(opened, plain);
    let boxed = box_with_salt(&plain, &password, &salt, THREADS, MEM, COST).unwrap();
    for cost in [0u32, 7, u32::MAX] {
        let r = unbox_bytes(&boxed, &password, THREADS, MEM, cost);
        assert!(
            matches!(
                r,
                Err(UnboxError::KeyDerivation(KeyDerivationError::ResourceExhausted))
            ),
            "cost {}",
            cost
        );
    }
}

#[test]
fn output_names_replace_the_extension() {
    let name = |input: &str, ext: &str| {
        obxr::engine::output_name(&input.as_bytes().to_vec(), &ext.as_bytes().to_vec())
    };
    assert_eq!(name("f.dat", "bin"), Some(b"f.bin".to_vec()));
    assert_eq!(name("f.dat", "out"), Some(b"f.out".to_vec()));
    assert_eq!(name("a.b.c.dat", "bin"), Some(b"a.b.c.bin".to_vec()));
    assert_eq!(name(".hidden", "bin"), Some(b".bin".to_vec()));
    assert_eq!(name("noext", "bin"), None);
    assert_eq!(name("", "bin"), None);
}

#[test]
fn streaming_session_matches_the_engine() {
    let plain = sample_plaintext(10_000);
    let password = b"pw".to_vec();
    let salt = sample_salt();
    let whole = box_with_salt(&plain, &password, &salt, THREADS, 1024, COST).unwrap();

    // Seal under a chunking the engine never used; bytes must agree anyway.
    let mut sealing = obxr::session::Session::start(&password, &salt, COST).unwrap();
    let mut body: Vec<u8> = Vec::new();
    for chunk in plain.chunks(777) {
        body.extend_from_slice(&sealing.seal_chunk(&chunk.to_vec()));
    }
    let tag = sealing.tag();
    sealing.retire();
    assert_eq!(&whole[..64], &tag[..]);
    assert_eq!(&whole[80..], &body[..]);

    // Authenticate, then open, in a separate pass each, under yet another
    // chunking.
    let mut opening = obxr::session::Session::start(&password, &salt, COST).unwrap();
    for chunk in body.chunks(1000) {
        opening.absorb_chunk(&chunk.to_vec());
    }
    assert!(opening.matches_tag(&tag));
    assert!(!opening.matches_tag(&vec![0u8; 64]));
    let mut opened: Vec<u8> = Vec::new();
    let mut offset = 0usize;
    for chunk in body.chunks(1000) {
        opened.extend_from_slice(&opening.open_chunk(offset, &chunk.to_vec()));
        offset += chunk.len();
    }
    opening.retire();
    assert_eq!(opened, plain);
}

#[test]
fn session_start_checks_inputs() {
    let salt = sample_salt();
    assert!(matches!(
        obxr::session::Session::start(&Vec::new(), &salt, COST),
        Err(KeyDerivationError::EmptyPassword)
    ));
    assert!(matches!(
        obxr::session::Session::start(&b"pw".to_vec(), &vec![0u8; 3], COST),
        Err(KeyDerivationError::BadSaltLength)
    ));
    assert!(matches!(
        obxr::session::Session::start(&b"pw".to_vec(), &salt, 7),
        Err(KeyDerivationError::ResourceExhausted)
    ));
}

#[test]
fn fresh_salts_differ_between_boxings() {
    let plain = sample_plaintext(64);
    let password = b"pw".to_vec();
    let a = box_bytes(&plain, &password, THREADS, MEM, COST).unwrap();
    let b = box_bytes(&plain, &password, THREADS, MEM, COST).unwrap();
    assert_ne!(a[64..80], b[64..80]);
    let opened = unbox_bytes(&a, &password, THREADS, MEM, COST).unwrap();
    assert_eq!(opened, plain);
}

#[test]
fn ciphertext_is_not_the_plaintext() {
    let plain = vec![0u8; 256];
    let password = b"pw".to_vec();
    let salt = sample_salt();
    let boxed = box_with_salt(&plain, &password, &salt, THREADS, MEM, COST).unwrap();
    assert_ne!(&boxed[80..], &plain[..]);
}

#[test]
fn different_salts_give_different_ciphertexts() {
    let plain = sample_plaintext(128);
    let password = b"pw".to_vec();
    let salt_a = sample_salt();
    let salt_b = vec![9u8; 16];
    let a = box_with_salt(&plain, &password, &salt_a, THREADS, MEM, COST).unwrap();
    let b = box_with_salt(&plain, &password, &salt_b, THREADS, MEM, COST).unwrap();
    assert_ne!(a[80..], b[80..]);
}

#[test]
fn different_bodies_give_different_tags() {
    let password = b"pw".to_vec();
    let salt = sample_salt();
    let a = box_with_salt(&sample_plaintext(64), &password, &salt, THREADS, MEM, COST).unwrap();
    let b = box_with_salt(&vec![0u8; 64], &password, &salt, THREADS, MEM, COST).unwrap();
    assert_ne!(a[..64], b[..64]);
}

#[test]
fn ten_megabyte_scenario() {
    let plain = sample_plaintext(10 * 1024 * 1024);
    let password = b"scenario password".to_vec();
    let mem_bytes = 4096 * 1024;
    assert_eq!(obxr::scheduler::chunk_count(plain.len(), mem_bytes), 3);
    let boxed = box_bytes(&plain, &password, 4, mem_bytes, COST).unwrap();
    assert_eq!(boxed.len(), 80 + 10 * 1024 * 1024);
    let opened = unbox_bytes(&boxed, &password, 4, mem_bytes, COST).unwrap();
    assert_eq!(opened, plain);
    let mut tampered = boxed.clone();
    tampered[10] ^= 0x80;
    let r = unbox_bytes(&tampered, &password, 4, mem_bytes, COST);
    assert!(matches!(r, Err(UnboxError::Authentication)));
}
