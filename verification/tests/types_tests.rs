use multi_hash_verified::{AlgorithmId, CodecEntry, HashDigest};
use std::collections::HashMap;

#[test]
fn test_hash_digest_new() {
    let digest = HashDigest::new(vec![1, 2, 3]);
    assert_eq!(digest.as_bytes(), &[1, 2, 3]);
}

#[test]
fn test_hash_digest_len() {
    let digest = HashDigest::new(vec![0u8; 32]);
    assert_eq!(digest.len(), 32);
}

#[test]
fn test_hash_digest_is_empty() {
    let empty = HashDigest::new(vec![]);
    assert!(empty.is_empty());

    let digest = HashDigest::new(vec![1]);
    assert!(!digest.is_empty());
}

#[test]
fn test_hash_digest_conversions() {
    let bytes = vec![1, 2, 3, 4];
    let digest = HashDigest::from(bytes.clone());
    let back: Vec<u8> = digest.into_bytes();
    assert_eq!(back, bytes);
}

#[test]
fn test_hash_digest_as_ref() {
    let digest = HashDigest::new(vec![1, 2, 3]);
    let slice: &[u8] = digest.as_ref();
    assert_eq!(slice, &[1, 2, 3]);
}

#[test]
fn test_hash_digest_equality() {
    let d1 = HashDigest::new(vec![1, 2, 3]);
    let d2 = HashDigest::new(vec![1, 2, 3]);
    let d3 = HashDigest::new(vec![4, 5, 6]);

    assert_eq!(d1, d2);
    assert_ne!(d1, d3);
}

#[test]
fn test_hash_digest_ordering() {
    let d1 = HashDigest::new(vec![1, 2, 3]);
    let d2 = HashDigest::new(vec![1, 2, 4]);

    assert!(d1 < d2);
}

#[test]
fn test_hash_digest_hash_trait() {
    let mut map = HashMap::new();
    let digest = HashDigest::new(vec![1, 2, 3]);
    map.insert(digest.clone(), "test");

    assert_eq!(map.get(&digest), Some(&"test"));
}

#[test]
fn test_hash_digest_display() {
    let digest = HashDigest::new(vec![0xDE, 0xAD, 0xBE, 0xEF]);
    assert_eq!(digest.to_string(), "deadbeef");
}

#[test]
fn test_algorithm_id_new() {
    let algo = AlgorithmId::new(CodecEntry::new(0x12, "sha2-256"));
    assert_eq!(algo.codec(), CodecEntry::new(0x12, "sha2-256"));
}

#[test]
fn test_algorithm_id_code() {
    let algo = AlgorithmId::new(CodecEntry::new(0x12, "sha2-256"));
    assert_eq!(algo.code(), 0x12);
}

#[test]
fn test_algorithm_id_name() {
    let algo = AlgorithmId::new(CodecEntry::new(0x12, "sha2-256"));
    assert_eq!(algo.name(), "sha2-256");
}

#[test]
fn test_algorithm_id_conversions() {
    let codec = CodecEntry::new(0x13, "sha2-512");
    let algo = AlgorithmId::from(codec);
    let back: CodecEntry = algo.into();
    assert_eq!(back, codec);
}

#[test]
fn test_algorithm_id_display() {
    let algo = AlgorithmId::new(CodecEntry::new(0x16, "sha3-256"));
    assert_eq!(algo.to_string(), "sha3-256");
}

#[test]
fn test_algorithm_id_copy() {
    let algo1 = AlgorithmId::new(CodecEntry::new(0x1e, "blake3"));
    let algo2 = algo1;
    assert_eq!(algo1, algo2);
}

fn assert_send<T: Send>() {}
fn assert_sync<T: Sync>() {}

#[test]
fn test_newtypes_are_send_sync() {
    assert_send::<HashDigest>();
    assert_sync::<HashDigest>();
    assert_send::<AlgorithmId>();
    assert_sync::<AlgorithmId>();
}

#[test]
fn digest_display_of_empty_digest_is_empty() {
    assert_eq!(HashDigest::new(vec![]).to_string(), "");
}

#[test]
fn digest_display_pads_each_byte_to_two_digits() {
    let digest = HashDigest::new(vec![0x00, 0x01, 0x0f, 0x10, 0xff]);
    let text = digest.to_string();
    assert_eq!(text, "00010f10ff");
    assert_eq!(text.len(), 2 * digest.len());
}

#[test]
fn digest_display_tells_digests_apart() {
    let a = HashDigest::new(vec![0x01, 0x23]);
    let b = HashDigest::new(vec![0x12, 0x03]);
    assert_ne!(a.to_string(), b.to_string());
}

#[test]
fn digest_bytes_roundtrip_through_conversions() {
    let bytes = vec![9u8, 8, 7];
    let digest: HashDigest = bytes.clone().into();
    let back: Vec<u8> = digest.into();
    assert_eq!(back, bytes);
}

#[test]
fn digest_len_matches_bytes() {
    let digest = HashDigest::new(vec![5u8; 48]);
    assert_eq!(digest.as_bytes().len(), digest.len());
    assert!(!digest.is_empty());
}

#[test]
fn algorithm_id_roundtrips_its_codec() {
    let codec = CodecEntry::new(0x1e, "blake3");
    let algo = AlgorithmId::new(codec);
    assert_eq!(CodecEntry::from(algo), codec);
    assert_eq!(algo.code(), codec.code);
    assert_eq!(algo.name(), codec.name);
}

#[test]
fn digests_compare_as_their_bytes() {
    let a = HashDigest::new(vec![1, 2]);
    let b = HashDigest::new(vec![1, 2, 0]);
    let c = HashDigest::new(vec![1, 3]);
    assert!(a < b);
    assert!(b < c);
    assert!(a < c);
    assert_eq!(a.partial_cmp(&a.clone()), Some(std::cmp::Ordering::Equal));
    assert_eq!(c.partial_cmp(&a), Some(std::cmp::Ordering::Greater));
    assert_eq!(HashDigest::new(vec![]).partial_cmp(&a), Some(std::cmp::Ordering::Less));
    assert_ne!(a, b);
    assert_eq!(a.cmp(&b), std::cmp::Ordering::Less);
}
