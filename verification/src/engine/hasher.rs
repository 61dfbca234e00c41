//! Checksums of file contents with five algorithms, computed
//! in one go over a buffer or incrementally over the chunks of a copy.
use vstd::prelude::*;
use crate::text::{hex_bytes, hex_u64_fixed, hex_of_bytes, hex_fixed};

verus! {

/// The checksum algorithms a transfer can verify with.
#[derive(Clone, Copy, Debug, PartialEq, Eq, Structural)]
pub enum HashAlgorithm {
    Blake3,
    XxHash3,
    Crc32,
    Md5,
    Sha256,
}

#[verifier::external_type_specification]
#[verifier::external_body]
pub struct ExBlake3Hasher(blake3::Hasher);

#[verifier::external_type_specification]
#[verifier::external_body]
pub struct ExXxh3(xxhash_rust::xxh3::Xxh3);

#[verifier::external_type_specification]
#[verifier::external_body]
pub struct ExCrc32Hasher(crc32fast::Hasher);

#[verifier::external_type_specification]
#[verifier::external_body]
pub struct ExMd5Context(md5::Context);

/// A SHA-256 hashing context of the `sha2` crate (`sha2::Sha256`, an alias
/// of a deeply generic wrapper type), held opaque in a field of its own.
#[verifier::external_body]
pub struct Sha256State {
    inner: sha2::Sha256,
}

/// The BLAKE3 digest (32 bytes) of a byte sequence, as `blake3::hash` gives it.
pub uninterp spec fn blake3_digest(data: Seq<u8>) -> Seq<u8>;

/// The 64-bit XXH3 hash (default seed and secret) of a byte sequence, as
/// `xxhash_rust::xxh3::xxh3_64` gives it.
pub uninterp spec fn xxh3_64_digest(data: Seq<u8>) -> u64;

/// `k` rounds of the bitwise CRC-32 (IEEE, reflected polynomial
/// `0xEDB88320`) shift register.
pub open spec fn crc32_shift(crc: u32, k: nat) -> u32
    decreases k,
{
    if k == 0 {
        crc
    } else {
        let c = crc32_shift(crc, (k - 1) as nat);
        if c & 1u32 == 1u32 {
            (c >> 1u32) ^ 0xEDB8_8320u32
        } else {
            c >> 1u32
        }
    }
}

/// The CRC-32 register after a byte sequence, starting from all ones.
pub open spec fn crc32_register(data: Seq<u8>) -> u32
    decreases data.len(),
{
    if data.len() == 0 {
        0xFFFF_FFFFu32
    } else {
        crc32_shift(crc32_register(data.drop_last()) ^ (data.last() as u32), 8)
    }
}

/// The CRC-32 (IEEE) checksum of a byte sequence, as `crc32fast::hash` gives
/// it: the register after the bytes, with all bits inverted.
pub open spec fn crc32_digest(data: Seq<u8>) -> u32 {
    crc32_register(data) ^ 0xFFFF_FFFFu32
}

/// The MD5 digest (16 bytes) of a byte sequence, as `md5::compute` gives it.
pub uninterp spec fn md5_digest(data: Seq<u8>) -> Seq<u8>;

/// The SHA-256 digest (32 bytes) of a byte sequence, as a `sha2::Sha256`
/// context fed exactly those bytes finalizes to.
pub uninterp spec fn sha256_digest(data: Seq<u8>) -> Seq<u8>;

/// The bytes fed so far into a `blake3::Hasher`.
pub uninterp spec fn blake3_hasher_input(h: blake3::Hasher) -> Seq<u8>;

/// The bytes fed so far into an `xxhash_rust::xxh3::Xxh3`.
pub uninterp spec fn xxh3_hasher_input(h: xxhash_rust::xxh3::Xxh3) -> Seq<u8>;

/// The bytes fed so far into a `crc32fast::Hasher`.
pub uninterp spec fn crc32_hasher_input(h: crc32fast::Hasher) -> Seq<u8>;

/// The bytes fed so far into an `md5::Context`.
pub uninterp spec fn md5_context_input(h: md5::Context) -> Seq<u8>;

/// The bytes fed so far into a SHA-256 context.
pub uninterp spec fn sha256_state_input(h: Sha256State) -> Seq<u8>;

/// `blake3::hash` with `Hash::as_bytes`: the BLAKE3 digest of `data`.
#[verifier::external_body]
fn blake3_hash(data: &[u8]) -> (d: [u8; 32])
    ensures
        d@ == blake3_digest(data@),
{
    *blake3::hash(data).as_bytes()
}

/// `xxhash_rust::xxh3::xxh3_64`: the 64-bit XXH3 hash of `data`.
#[verifier::external_body]
fn xxh3_64_hash(data: &[u8]) -> (d: u64)
    ensures
        d == xxh3_64_digest(data@),
{
    xxhash_rust::xxh3::xxh3_64(data)
}

/// `crc32fast::hash`: the CRC-32 of `data`.
#[verifier::external_body]
fn crc32_hash(data: &[u8]) -> (d: u32)
    ensures
        d == crc32_digest(data@),
{
    crc32fast::hash(data)
}

/// `md5::compute`: the MD5 digest of `data`.
#[verifier::external_body]
fn md5_hash(data: &[u8]) -> (d: [u8; 16])
    ensures
        d@ == md5_digest(data@),
{
    md5::compute(data).0
}

/// `blake3::Hasher::new`: a hasher that has been fed nothing.
#[verifier::external_body]
fn blake3_new() -> (h: blake3::Hasher)
    ensures
        blake3_hasher_input(h) == Seq::<u8>::empty(),
{
    blake3::Hasher::new()
}

/// `blake3::Hasher::update`: appends `data` to what the hasher has been fed.
#[verifier::external_body]
fn blake3_update(h: &mut blake3::Hasher, data: &[u8])
    ensures
        blake3_hasher_input(*final(h)) == blake3_hasher_input(*old(h)) + data@,
{
    h.update(data);
}

/// `blake3::Hasher::finalize` with `Hash::as_bytes`: the BLAKE3 digest of all
/// the bytes fed, the same as `blake3::hash` of their concatenation (the
/// crate's documentation shows the two as equal).
#[verifier::external_body]
fn blake3_finalize(h: &blake3::Hasher) -> (d: [u8; 32])
    ensures
        d@ == blake3_digest(blake3_hasher_input(*h)),
{
    *h.finalize().as_bytes()
}

/// `xxhash_rust::xxh3::Xxh3::new`: a hasher with the default seed that has been fed nothing.
#[verifier::external_body]
fn xxh3_new() -> (h: xxhash_rust::xxh3::Xxh3)
    ensures
        xxh3_hasher_input(h) == Seq::<u8>::empty(),
{
    xxhash_rust::xxh3::Xxh3::new()
}

/// `Xxh3::update`: appends `data` to what the hasher has been fed.
#[verifier::external_body]
fn xxh3_update(h: &mut xxhash_rust::xxh3::Xxh3, data: &[u8])
    ensures
        xxh3_hasher_input(*final(h)) == xxh3_hasher_input(*old(h)) + data@,
{
    h.update(data);
}

/// `Xxh3::digest`: the 64-bit XXH3 hash of all the bytes fed, as `xxh3_64`
/// gives it for their concatenation (the crate's tests compare the two on
/// its test vectors).
#[verifier::external_body]
fn xxh3_digest(h: &xxhash_rust::xxh3::Xxh3) -> (d: u64)
    ensures
        d == xxh3_64_digest(xxh3_hasher_input(*h)),
{
    h.digest()
}

/// `crc32fast::Hasher::new`: a hasher that has been fed nothing.
#[verifier::external_body]
fn crc32_new() -> (h: crc32fast::Hasher)
    ensures
        crc32_hasher_input(h) == Seq::<u8>::empty(),
{
    crc32fast::Hasher::new()
}

/// `crc32fast::Hasher::update`: appends `data` to what the hasher has been fed.
#[verifier::external_body]
fn crc32_update(h: &mut crc32fast::Hasher, data: &[u8])
    ensures
        crc32_hasher_input(*final(h)) == crc32_hasher_input(*old(h)) + data@,
{
    h.update(data);
}

/// `crc32fast::Hasher::finalize`: the CRC-32 of all the bytes fed (the crate's
/// `hash` is written as `new`, `update`, `finalize`).
#[verifier::external_body]
fn crc32_finalize(h: crc32fast::Hasher) -> (d: u32)
    ensures
        d == crc32_digest(crc32_hasher_input(h)),
{
    h.finalize()
}

/// `md5::Context::new`: a context that has been fed nothing.
#[verifier::external_body]
fn md5_new() -> (h: md5::Context)
    ensures
        md5_context_input(h) == Seq::<u8>::empty(),
{
    md5::Context::new()
}

/// `md5::Context::consume`: appends `data` to what the context has been fed.
#[verifier::external_body]
fn md5_consume(h: &mut md5::Context, data: &[u8])
    ensures
        md5_context_input(*final(h)) == md5_context_input(*old(h)) + data@,
{
    h.consume(data);
}

/// `md5::Context::compute`: the MD5 digest of all the bytes fed (the crate's
/// `compute` function is written as `new`, `consume`, `compute`).
#[verifier::external_body]
fn md5_compute(h: md5::Context) -> (d: [u8; 16])
    ensures
        d@ == md5_digest(md5_context_input(h)),
{
    h.compute().0
}

/// `sha2::Sha256::new` (trait `Digest`): a context that has been fed nothing.
#[verifier::external_body]
fn sha256_new() -> (h: Sha256State)
    ensures
        sha256_state_input(h) == Seq::<u8>::empty(),
{
    Sha256State { inner: <sha2::Sha256 as sha2::Digest>::new() }
}

/// `Digest::update` on a SHA-256 context: appends `data` to what it has been fed.
#[verifier::external_body]
fn sha256_update(h: &mut Sha256State, data: &[u8])
    ensures
        sha256_state_input(*final(h)) == sha256_state_input(*old(h)) + data@,
{
    sha2::Digest::update(&mut h.inner, data);
}

/// `Digest::finalize` on a SHA-256 context: the SHA-256 digest of all the bytes fed.
#[verifier::external_body]
fn sha256_finalize(h: Sha256State) -> (d: [u8; 32])
    ensures
        d@ == sha256_digest(sha256_state_input(h)),
{
    sha2::Digest::finalize(h.inner).into()
}

/// The checksum text of `data`: lowercase
/// hexadecimal of the digest bytes (BLAKE3, MD5, SHA-256), of the 64-bit XXH3
/// value padded to 16 digits, or of the CRC-32 value padded to 8 digits.
pub open spec fn hash_hex(algorithm: HashAlgorithm, data: Seq<u8>) -> Seq<char> {
    match algorithm {
        HashAlgorithm::Blake3 => hex_of_bytes(blake3_digest(data)),
        HashAlgorithm::XxHash3 => hex_fixed(xxh3_64_digest(data) as nat, 16),
        HashAlgorithm::Crc32 => hex_fixed(crc32_digest(data) as nat, 8),
        HashAlgorithm::Md5 => hex_of_bytes(md5_digest(data)),
        HashAlgorithm::Sha256 => hex_of_bytes(sha256_digest(data)),
    }
}

/// An incremental checksum computation for one of the five algorithms.
pub enum StreamingHasher {
    Blake3(blake3::Hasher),
    XxHash3(xxhash_rust::xxh3::Xxh3),
    Crc32(crc32fast::Hasher),
    Md5(md5::Context),
    Sha256(Sha256State),
}

impl StreamingHasher {
    /// The algorithm this hasher computes.
    pub open spec fn algorithm(&self) -> HashAlgorithm {
        match self {
            StreamingHasher::Blake3(_) => HashAlgorithm::Blake3,
            StreamingHasher::XxHash3(_) => HashAlgorithm::XxHash3,
            StreamingHasher::Crc32(_) => HashAlgorithm::Crc32,
            StreamingHasher::Md5(_) => HashAlgorithm::Md5,
            StreamingHasher::Sha256(_) => HashAlgorithm::Sha256,
        }
    }

    /// All bytes fed to this hasher so far, in order.
    pub open spec fn input(&self) -> Seq<u8> {
        match self {
            StreamingHasher::Blake3(h) => blake3_hasher_input(*h),
            StreamingHasher::XxHash3(h) => xxh3_hasher_input(*h),
            StreamingHasher::Crc32(h) => crc32_hasher_input(*h),
            StreamingHasher::Md5(h) => md5_context_input(*h),
            StreamingHasher::Sha256(h) => sha256_state_input(*h),
        }
    }

    /// A fresh hasher for `algorithm`.
    pub fn new(algorithm: HashAlgorithm) -> (h: StreamingHasher)
        ensures
            h.algorithm() == algorithm,
            h.input() == Seq::<u8>::empty(),
    {
        match algorithm {
            HashAlgorithm::Blake3 => StreamingHasher::Blake3(blake3_new()),
            HashAlgorithm::XxHash3 => StreamingHasher::XxHash3(xxh3_new()),
            HashAlgorithm::Crc32 => StreamingHasher::Crc32(crc32_new()),
            HashAlgorithm::Md5 => StreamingHasher::Md5(md5_new()),
            HashAlgorithm::Sha256 => StreamingHasher::Sha256(sha256_new()),
        }
    }

    /// Feeds `data` to the hasher.
    pub fn update(&mut self, data: &[u8])
        ensures
            final(self).algorithm() == old(self).algorithm(),
            final(self).input() == old(self).input() + data@,
    {
        match self {
            StreamingHasher::Blake3(h) => blake3_update(h, data),
            StreamingHasher::XxHash3(h) => xxh3_update(h, data),
            StreamingHasher::Crc32(h) => crc32_update(h, data),
            StreamingHasher::Md5(h) => md5_consume(h, data),
            StreamingHasher::Sha256(h) => sha256_update(h, data),
        }
    }

    /// The checksum text of everything fed.
    pub fn finalize(self) -> (s: String)
        ensures
            s@ == hash_hex(self.algorithm(), self.input()),
    {
        match self {
            StreamingHasher::Blake3(h) => {
                let d = blake3_finalize(&h);
                hex_bytes(&d)
            },
            StreamingHasher::XxHash3(h) => {
                let d = xxh3_digest(&h);
                hex_u64_fixed(d, 16)
            },
            StreamingHasher::Crc32(h) => {
                let d = crc32_finalize(h);
                hex_u64_fixed(d as u64, 8)
            },
            StreamingHasher::Md5(h) => {
                let d = md5_compute(h);
                hex_bytes(&d)
            },
            StreamingHasher::Sha256(h) => {
                let d = sha256_finalize(h);
                hex_bytes(&d)
            },
        }
    }
}

/// The checksum text of a whole buffer, such as a memory-mapped file: the
/// one-shot function of each crate, and a SHA-256 context fed the buffer.
pub fn hash_bytes(data: &[u8], algorithm: HashAlgorithm) -> (s: String)
    ensures
        s@ == hash_hex(algorithm, data@),
{
    match algorithm {
        HashAlgorithm::Blake3 => {
            let d = blake3_hash(data);
            hex_bytes(&d)
        },
        HashAlgorithm::XxHash3 => {
            let d = xxh3_64_hash(data);
            hex_u64_fixed(d, 16)
        },
        HashAlgorithm::Crc32 => {
            let d = crc32_hash(data);
            hex_u64_fixed(d as u64, 8)
        },
        HashAlgorithm::Md5 => {
            let d = md5_hash(data);
            hex_bytes(&d)
        },
        HashAlgorithm::Sha256 => {
            let mut h = sha256_new();
            sha256_update(&mut h, data);
            assert(Seq::<u8>::empty() + data@ =~= data@);
            let d = sha256_finalize(h);
            hex_bytes(&d)
        },
    }
}

/// Files above this size are hashed from a memory map; smaller ones, and
/// files that cannot be mapped, are read in chunks of `HASH_READ_CHUNK` bytes.
pub const MEMORY_MAP_THRESHOLD: u64 = 65536;

/// The chunk size of the streaming fallback.
pub const HASH_READ_CHUNK: usize = 1048576;

/// Whether a file of `file_len` bytes is hashed from a memory map.
pub fn prefers_memory_map(file_len: u64) -> (b: bool)
    ensures
        b == (file_len > MEMORY_MAP_THRESHOLD),
{
    file_len > MEMORY_MAP_THRESHOLD
}

/// What a hasher has been fed after its first `i` updates, when it started
/// empty and was fed the chunks in order.
proof fn lemma_fed_prefix(hs: Seq<StreamingHasher>, chunks: Seq<Seq<u8>>, i: int)
    requires
        hs.len() == chunks.len() + 1,
        hs[0].input() == Seq::<u8>::empty(),
        forall|k: int| 0 <= k < chunks.len() ==> #[trigger] hs[k + 1].input() == hs[k].input() + chunks[k],
        0 <= i <= chunks.len(),
    ensures
        hs[i].input() == chunks.take(i).flatten(),
    decreases i,
{
    if i == 0 {
        assert(chunks.take(0) =~= Seq::<Seq<u8>>::empty());
    } else {
        lemma_fed_prefix(hs, chunks, i - 1);
        assert(chunks.take(i) =~= chunks.take(i - 1).push(chunks[i - 1]));
        chunks.take(i - 1).lemma_flatten_push(chunks[i - 1]);
        assert(hs[i].input() == hs[i - 1].input() + chunks[i - 1]);
    }
}

/// Hashing a file in one go or chunk by chunk gives the same checksum: a
/// fresh hasher fed the chunks of some data one update after another
/// (`hs[k + 1]` is `hs[k]` after feeding `chunks[k]`) finishes with the
/// checksum that `hash_bytes` gives for the whole data.
pub proof fn law_chunked_hash_matches_whole(hs: Seq<StreamingHasher>, chunks: Seq<Seq<u8>>)
    requires
        hs.len() == chunks.len() + 1,
        hs[0].input() == Seq::<u8>::empty(),
        forall|k: int| 0 <= k < chunks.len() ==> #[trigger] hs[k + 1].input() == hs[k].input() + chunks[k],
        forall|k: int| 0 <= k < chunks.len() ==> #[trigger] hs[k + 1].algorithm() == hs[k].algorithm(),
    ensures
        hs.last().algorithm() == hs[0].algorithm(),
        hash_hex(hs.last().algorithm(), hs.last().input()) == hash_hex(hs[0].algorithm(), chunks.flatten()),
    decreases chunks.len(),
{
    lemma_fed_prefix(hs, chunks, chunks.len() as int);
    assert(chunks.take(chunks.len() as int) =~= chunks);
    if chunks.len() > 0 {
        let n = chunks.len() - 1;
        law_chunked_hash_matches_whole(hs.take(n + 1), chunks.take(n));
        assert(hs.take(n + 1).last() == hs[n]);
        assert(hs[n + 1].algorithm() == hs[n].algorithm());
    }
}

} // verus!
