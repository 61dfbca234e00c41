use sha2::Digest;
use copytej::engine::hasher::{hash_bytes, prefers_memory_map, HashAlgorithm, StreamingHasher};

#[test]
fn known_digests_of_abc() {
    assert_eq!(
        hash_bytes(b"abc", HashAlgorithm::Blake3),
        "6437b3ac38465133ffb63b75273a8db548c558465d79db03fd359c6cd5bd9d85"
    );
    assert_eq!(hash_bytes(b"abc", HashAlgorithm::Md5), "900150983cd24fb0d6963f7d28e17f72");
    assert_eq!(
        hash_bytes(b"abc", HashAlgorithm::Sha256),
        "ba7816bf8f01cfea414140de5dae2223b00361a396177a9cb410ff61f20015ad"
    );
    assert_eq!(hash_bytes(b"abc", HashAlgorithm::Crc32), "352441c2");
    assert_eq!(
        hash_bytes(b"abc", HashAlgorithm::XxHash3),
        format!("{:016x}", xxhash_rust::xxh3::xxh3_64(b"abc"))
    );
}

#[test]
fn checksums_match_the_crates_own_formatting() {
    let data: Vec<u8> = (0..5000u32).map(|i| (i * 7 % 251) as u8).collect();
    assert_eq!(hash_bytes(&data, HashAlgorithm::Blake3), blake3::hash(&data).to_hex().to_string());
    assert_eq!(
        hash_bytes(&data, HashAlgorithm::XxHash3),
        format!("{:016x}", xxhash_rust::xxh3::xxh3_64(&data))
    );
    assert_eq!(hash_bytes(&data, HashAlgorithm::Crc32), format!("{:08x}", crc32fast::hash(&data)));
    assert_eq!(hash_bytes(&data, HashAlgorithm::Md5), format!("{:x}", md5::compute(&data)));
    assert_eq!(
        hash_bytes(&data, HashAlgorithm::Sha256),
        format!("{:x}", sha2::Sha256::digest(&data))
    );
}

#[test]
fn small_values_keep_their_zero_padding() {
    // The empty input's CRC-32 is zero: all eight digits remain.
    assert_eq!(hash_bytes(b"", HashAlgorithm::Crc32), "00000000");
    assert_eq!(hash_bytes(b"", HashAlgorithm::XxHash3).len(), 16);
}

#[test]
fn chunked_hashing_matches_hashing_in_one_go() {
    let data: Vec<u8> = (0..300_000u32).map(|i| (i % 253) as u8).collect();
    for algo in [
        HashAlgorithm::Blake3,
        HashAlgorithm::XxHash3,
        HashAlgorithm::Crc32,
        HashAlgorithm::Md5,
        HashAlgorithm::Sha256,
    ] {
        let mut h = StreamingHasher::new(algo);
        for chunk in data.chunks(65_536) {
            h.update(chunk);
        }
        assert_eq!(h.finalize(), hash_bytes(&data, algo));
    }
}

#[test]
fn memory_map_only_above_64_kib() {
    assert!(!prefers_memory_map(65_536));
    assert!(prefers_memory_map(65_537));
    assert!(!prefers_memory_map(0));
}
