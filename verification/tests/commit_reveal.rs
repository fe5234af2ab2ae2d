use workout_poap::commit_reveal::{commit, verify, verify_digest};
use workout_poap::errors::WorkoutError;
use workout_poap::hash::digests_equal;
use workout_poap::pubkey::Pubkey;
use workout_poap::state::WorkoutInstance;

fn committed_to(secret: &[u8]) -> WorkoutInstance {
    WorkoutInstance {
        trainer: Pubkey::new_from_array([1; 32]),
        start_ts: 0,
        window_start_ts: 10,
        window_end_ts: 20,
        secret_hash: commit(secret),
        is_closed: false,
        yyyymmdd: 20251028,
        hour: 7,
        minute: 0,
        metadata_uri_override: String::new(),
        bump: 255,
    }
}

#[test]
fn sha256_of_the_empty_string_is_the_known_digest() {
    let expected: [u8; 32] = [
        0xe3, 0xb0, 0xc4, 0x42, 0x98, 0xfc, 0x1c, 0x14, 0x9a, 0xfb, 0xf4, 0xc8, 0x99, 0x6f, 0xb9,
        0x24, 0x27, 0xae, 0x41, 0xe4, 0x64, 0x9b, 0x93, 0x4c, 0xa4, 0x95, 0x99, 0x1b, 0x78, 0x52,
        0xb8, 0x55,
    ];
    assert_eq!(commit(b""), expected);
}

#[test]
fn sha256_of_abc_is_the_known_digest() {
    let expected: [u8; 32] = [
        0xba, 0x78, 0x16, 0xbf, 0x8f, 0x01, 0xcf, 0xea, 0x41, 0x41, 0x40, 0xde, 0x5d, 0xae, 0x22,
        0x23, 0xb0, 0x03, 0x61, 0xa3, 0x96, 0x17, 0x7a, 0x9c, 0xb4, 0x10, 0xff, 0x61, 0xf2, 0x00,
        0x15, 0xad,
    ];
    assert_eq!(commit(b"abc"), expected);
}

#[test]
fn revealed_secret_is_accepted() {
    let instance = committed_to(b"abc123");
    assert_eq!(verify(&instance, b"abc123"), Ok(()));
}

#[test]
fn verification_can_be_repeated() {
    let instance = committed_to(b"abc123");
    let before = instance.clone();
    for _ in 0..3 {
        assert_eq!(verify(&instance, b"abc123"), Ok(()));
        assert_eq!(verify(&instance, b"abc124"), Err(WorkoutError::HashMismatch));
    }
    assert_eq!(instance, before);
}

#[test]
fn flipping_any_single_bit_of_the_secret_is_refused() {
    let secret = b"abc123".to_vec();
    let instance = committed_to(&secret);
    for byte in 0..secret.len() {
        for bit in 0..8 {
            let mut changed = secret.clone();
            changed[byte] ^= 1 << bit;
            assert_eq!(verify(&instance, &changed), Err(WorkoutError::HashMismatch));
        }
    }
}

#[test]
fn prefix_extension_and_case_variants_are_refused() {
    let instance = committed_to(b"abc123");
    assert_eq!(verify(&instance, b"abc12"), Err(WorkoutError::HashMismatch));
    assert_eq!(verify(&instance, b"abc1234"), Err(WorkoutError::HashMismatch));
    assert_eq!(verify(&instance, b"ABC123"), Err(WorkoutError::HashMismatch));
    assert_eq!(verify(&instance, b""), Err(WorkoutError::HashMismatch));
}

#[test]
fn digest_is_compared_byte_for_byte() {
    let instance = committed_to(b"abc123");
    let committed = commit(b"abc123");
    assert_eq!(verify_digest(&instance, &committed), Ok(()));
    for position in 0..32 {
        let mut other = committed;
        other[position] = other[position].wrapping_add(1);
        assert_eq!(verify_digest(&instance, &other), Err(WorkoutError::HashMismatch));
        assert!(!digests_equal(&committed, &other));
    }
    assert!(digests_equal(&committed, &committed));
    assert!(digests_equal(&[0u8; 32], &[0u8; 32]));
    assert!(!digests_equal(&[0u8; 32], &[255u8; 32]));
}

#[test]
fn secret_is_not_what_is_stored() {
    let instance = committed_to(b"abc123");
    let mut padded = [0u8; 32];
    padded[..6].copy_from_slice(b"abc123");
    assert!(instance.secret_hash != padded);
}
