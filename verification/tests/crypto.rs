use peerlink::crypto::primitives::hash;
use peerlink::crypto::primitives::hash::{Hasher, HasherError, SIZE};
use peerlink::crypto::primitives::sign::PublicKey;

const EMPTY_DIGEST: &str = "af1349b9f5f9a1a6a0404dea36dcc9499bcb25c9adc112b7cc9a93cae41f3262";

#[test]
fn hash_of_nothing_is_the_known_digest() {
    assert_eq!(SIZE, 32);
    let digest = Hasher::new().finalize();
    assert_eq!(digest.to_hex(), EMPTY_DIGEST);
    assert_eq!(hash::hash(Some(&[])).unwrap().to_hex(), EMPTY_DIGEST);
}

#[test]
fn hash_agrees_with_blake3() {
    let message = b"the quick brown fox jumps over the lazy dog";
    let expected: [u8; 32] = blake3::hash(message).into();
    assert_eq!(hash::hash(Some(message)), Ok(hash::Hash(expected)));
    assert_ne!(hash::hash(Some(message)), hash::hash(Some(&message[1..])));
    assert_ne!(hash::Hash(expected).0[..], message[..32]);
}

#[test]
fn hash_in_chunks_is_hash_of_whole() {
    let message: Vec<u8> = (0..5000u32).map(|i| (i % 256) as u8).collect();
    let mut hasher = Hasher::new();
    hasher.update_raw(&message[..1]);
    hasher.update_raw(&message[1..1024]);
    hasher.update_raw(&[]);
    assert_eq!(hasher.update(Some(&message[1024..])), Ok(()));
    assert_eq!(Ok(hasher.finalize()), hash::hash(Some(&message)));
}

#[test]
fn hash_of_serialized_message() {
    let serialized = bincode::serialize(&(42u32, String::from("card"))).unwrap();
    let expected: [u8; 32] = blake3::hash(&serialized).into();
    assert_eq!(hash::hash(Some(&serialized)).unwrap(), hash::Hash::from(expected));
}

#[test]
fn hasher_reports_serialize_failure() {
    assert_eq!(hash::hash(None), Err(HasherError::SerializeFailed));
    let mut hasher = Hasher::new();
    assert_eq!(hasher.update(None), Err(HasherError::SerializeFailed));
    assert_eq!(hasher.finalize().to_hex(), EMPTY_DIGEST);
}

#[test]
fn hash_converts_to_and_from_bytes() {
    let mut bytes = [0u8; 32];
    bytes[0] = 0xab;
    bytes[31] = 0x01;
    let hash = hash::Hash::from(bytes);
    assert_eq!(hash, hash::Hash(bytes));
    let back: [u8; 32] = hash.into();
    assert_eq!(back, bytes);
    assert_eq!(
        hash.to_hex(),
        "ab00000000000000000000000000000000000000000000000000000000000001"
    );
}

#[test]
fn hash_equality_looks_at_every_byte() {
    let base = hash::Hash([7u8; 32]);
    assert!(base == hash::Hash([7u8; 32]));
    for position in 0..32 {
        let mut bytes = [7u8; 32];
        bytes[position] = 8;
        assert!(base != hash::Hash(bytes));
    }
}

#[test]
fn public_key_equality_looks_at_every_byte() {
    let base = PublicKey([1u8; 32]);
    assert!(base == PublicKey([1u8; 32]));
    for position in 0..32 {
        let mut bytes = [1u8; 32];
        bytes[position] = 0;
        assert!(base != PublicKey(bytes));
    }
}
