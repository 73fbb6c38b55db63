//! Digest engine: streaming cryptographic hashes (SHA-256, SHA-512 and the
//! legacy MD5) with progress reporting, lowercase-hex digest rendering, and
//! case-insensitive digest verification.

use vstd::prelude::*;
use vstd::string::StringSliceAdditionalSpecFns;

use crate::errors::ErrorKind;
use crate::state::OperationState;
use crate::text::{ascii_lower, eq_ignore_ascii, lowered_matches, string_bytes};

verus! {

/// Bytes hashed per chunk when streaming data through a hasher.
pub const DIGEST_CHUNK_SIZE: usize = 1024 * 1024;

/// The SHA-256 digest (32 bytes) of a byte sequence, as sha2 computes it.
pub uninterp spec fn sha256_of(data: Seq<u8>) -> Seq<u8>;

/// The SHA-512 digest (64 bytes) of a byte sequence, as sha2 computes it.
pub uninterp spec fn sha512_of(data: Seq<u8>) -> Seq<u8>;

/// The MD5 digest (16 bytes) of a byte sequence, as md-5 computes it.
pub uninterp spec fn md5_of(data: Seq<u8>) -> Seq<u8>;

/// The byte value of the ASCII lowercase hex digit for `v` (0..15).
pub open spec fn hex_digit_byte(v: int) -> u8 {
    if v < 10 {
        (0x30 + v) as u8
    } else {
        (0x57 + v) as u8
    }
}

/// The UTF-8 bytes of the lowercase hex rendering of a byte sequence: two
/// digits per byte, high nibble first.
pub open spec fn hex_bytes(data: Seq<u8>) -> Seq<u8> {
    Seq::new(
        data.len() * 2,
        |i: int|
            if i % 2 == 0 {
                hex_digit_byte((data[i / 2] as int) / 16)
            } else {
                hex_digit_byte((data[i / 2] as int) % 16)
            },
    )
}

proof fn lemma_hex_digit_injective(x: int, y: int)
    requires
        0 <= x < 16,
        0 <= y < 16,
        hex_digit_byte(x) == hex_digit_byte(y),
    ensures
        x == y,
{
}

/// Hex rendering loses nothing: equal hex strings come only from equal byte
/// sequences, so comparing digests by their hex form compares the digests.
pub proof fn lemma_hex_bytes_injective(a: Seq<u8>, b: Seq<u8>)
    requires
        hex_bytes(a) == hex_bytes(b),
    ensures
        a == b,
{
    assert(hex_bytes(a).len() == a.len() * 2);
    assert(hex_bytes(b).len() == b.len() * 2);
    assert(a.len() == b.len());
    assert forall|i: int| 0 <= i < a.len() implies a[i] == b[i] by {
        let ha = (a[i] as int) / 16;
        let hb = (b[i] as int) / 16;
        let la = (a[i] as int) % 16;
        let lb = (b[i] as int) % 16;
        assert((2 * i) % 2 == 0 && (2 * i) / 2 == i);
        assert((2 * i + 1) % 2 == 1 && (2 * i + 1) / 2 == i);
        assert(hex_bytes(a)[2 * i] == hex_digit_byte(ha));
        assert(hex_bytes(b)[2 * i] == hex_digit_byte(hb));
        assert(hex_bytes(a)[2 * i + 1] == hex_digit_byte(la));
        assert(hex_bytes(b)[2 * i + 1] == hex_digit_byte(lb));
        assert(hex_digit_byte(ha) == hex_digit_byte(hb));
        assert(hex_digit_byte(la) == hex_digit_byte(lb));
        lemma_hex_digit_injective(ha, hb);
        lemma_hex_digit_injective(la, lb);
        assert(a[i] as int == 16 * ha + la);
        assert(b[i] as int == 16 * hb + lb);
    }
    assert(a =~= b);
}

/// Hex renderings are already ASCII lowercase: folding case changes nothing.
pub proof fn lemma_hex_bytes_lowercase(data: Seq<u8>)
    ensures
        ascii_lower(hex_bytes(data)) == hex_bytes(data),
{
    assert(ascii_lower(hex_bytes(data)) =~= hex_bytes(data));
}

/// Relies on hex::encode: renders bytes as a lowercase ASCII hex string, two
/// digits per byte, high nibble first.
#[verifier::external_body]
fn hex_encode(data: &[u8]) -> (r: String)
    ensures
        r@.len() == data@.len() * 2,
        string_bytes(r) == hex_bytes(data@),
{
    hex::encode(data)
}

#[verifier::external_body]
struct Sha256Inner {
    hasher: sha2::Sha256,
}

/// A streaming SHA-256 computation; tracks the bytes absorbed so far.
pub struct Sha256Stream {
    inner: Sha256Inner,
    absorbed: Ghost<Seq<u8>>,
}

impl Sha256Stream {
    /// The bytes fed to the hasher so far.
    pub closed spec fn absorbed(self) -> Seq<u8> {
        self.absorbed@
    }

    /// Relies on sha2::Sha256 (Digest::new): a fresh hasher has absorbed
    /// nothing.
    #[verifier::external_body]
    pub fn new() -> (r: Sha256Stream)
        ensures
            r.absorbed() == Seq::<u8>::empty(),
    {
        Sha256Stream {
            inner: Sha256Inner { hasher: <sha2::Sha256 as sha2::Digest>::new() },
            absorbed: Ghost(Seq::empty()),
        }
    }

    /// Relies on sha2::Sha256 (Digest::update): appends the chunk to the
    /// absorbed stream.
    #[verifier::external_body]
    pub fn update(&mut self, chunk: &[u8])
        ensures
            final(self).absorbed() == old(self).absorbed() + chunk@,
    {
        <sha2::Sha256 as sha2::Digest>::update(&mut self.inner.hasher, chunk);
        proof {
            self.absorbed@ = self.absorbed@ + chunk@;
        }
    }

    /// Relies on sha2::Sha256 (Digest::finalize): returns the 32-byte SHA-256
    /// digest of the absorbed stream.
    #[verifier::external_body]
    pub fn finalize(self) -> (r: Vec<u8>)
        ensures
            r@ == sha256_of(self.absorbed()),
            r@.len() == 32,
    {
        <sha2::Sha256 as sha2::Digest>::finalize(self.inner.hasher).to_vec()
    }
}

#[verifier::external_body]
struct Sha512Inner {
    hasher: sha2::Sha512,
}

/// A streaming SHA-512 computation; tracks the bytes absorbed so far.
pub struct Sha512Stream {
    inner: Sha512Inner,
    absorbed: Ghost<Seq<u8>>,
}

impl Sha512Stream {
    /// The bytes fed to the hasher so far.
    pub closed spec fn absorbed(self) -> Seq<u8> {
        self.absorbed@
    }

    /// Relies on sha2::Sha512 (Digest::new): a fresh hasher has absorbed
    /// nothing.
    #[verifier::external_body]
    pub fn new() -> (r: Sha512Stream)
        ensures
            r.absorbed() == Seq::<u8>::empty(),
    {
        Sha512Stream {
            inner: Sha512Inner { hasher: <sha2::Sha512 as sha2::Digest>::new() },
            absorbed: Ghost(Seq::empty()),
        }
    }

    /// Relies on sha2::Sha512 (Digest::update): appends the chunk to the
    /// absorbed stream.
    #[verifier::external_body]
    pub fn update(&mut self, chunk: &[u8])
        ensures
            final(self).absorbed() == old(self).absorbed() + chunk@,
    {
        <sha2::Sha512 as sha2::Digest>::update(&mut self.inner.hasher, chunk);
        proof {
            self.absorbed@ = self.absorbed@ + chunk@;
        }
    }

    /// Relies on sha2::Sha512 (Digest::finalize): returns the 64-byte SHA-512
    /// digest of the absorbed stream.
    #[verifier::external_body]
    pub fn finalize(self) -> (r: Vec<u8>)
        ensures
            r@ == sha512_of(self.absorbed()),
            r@.len() == 64,
    {
        <sha2::Sha512 as sha2::Digest>::finalize(self.inner.hasher).to_vec()
    }
}

#[verifier::external_body]
struct Md5Inner {
    hasher: md5::Md5,
}

/// A streaming MD5 computation; tracks the bytes absorbed so far.
pub struct Md5Stream {
    inner: Md5Inner,
    absorbed: Ghost<Seq<u8>>,
}

impl Md5Stream {
    /// The bytes fed to the hasher so far.
    pub closed spec fn absorbed(self) -> Seq<u8> {
        self.absorbed@
    }

    /// Relies on md5::Md5 (Digest::new): a fresh hasher has absorbed nothing.
    #[verifier::external_body]
    pub fn new() -> (r: Md5Stream)
        ensures
            r.absorbed() == Seq::<u8>::empty(),
    {
        Md5Stream {
            inner: Md5Inner { hasher: <md5::Md5 as md5::Digest>::new() },
            absorbed: Ghost(Seq::empty()),
        }
    }

    /// Relies on md5::Md5 (Digest::update): appends the chunk to the absorbed
    /// stream.
    #[verifier::external_body]
    pub fn update(&mut self, chunk: &[u8])
        ensures
            final(self).absorbed() == old(self).absorbed() + chunk@,
    {
        <md5::Md5 as md5::Digest>::update(&mut self.inner.hasher, chunk);
        proof {
            self.absorbed@ = self.absorbed@ + chunk@;
        }
    }

    /// Relies on md5::Md5 (Digest::finalize): returns the 16-byte MD5 digest
    /// of the absorbed stream.
    #[verifier::external_body]
    pub fn finalize(self) -> (r: Vec<u8>)
        ensures
            r@ == md5_of(self.absorbed()),
            r@.len() == 16,
    {
        <md5::Md5 as md5::Digest>::finalize(self.inner.hasher).to_vec()
    }
}

/// The three supported hash algorithms.
#[derive(Debug, Clone, Copy, PartialEq, Eq, Structural)]
pub enum HashAlgorithm {
    Sha256,
    Sha512,
    Md5,
}

/// The UTF-8 bytes of the spelling "sha256".
pub open spec fn sha256_name() -> Seq<u8> {
    seq![0x73u8, 0x68u8, 0x61u8, 0x32u8, 0x35u8, 0x36u8]
}

/// The UTF-8 bytes of the spelling "sha512".
pub open spec fn sha512_name() -> Seq<u8> {
    seq![0x73u8, 0x68u8, 0x61u8, 0x35u8, 0x31u8, 0x32u8]
}

/// The UTF-8 bytes of the spelling "md5".
pub open spec fn md5_name() -> Seq<u8> {
    seq![0x6du8, 0x64u8, 0x35u8]
}

/// Which algorithm a name selects, compared case-insensitively over the
/// name's UTF-8 bytes; None for unsupported names.
pub open spec fn spec_parse_algorithm(name: Seq<u8>) -> Option<HashAlgorithm> {
    if ascii_lower(name) == sha256_name() {
        Some(HashAlgorithm::Sha256)
    } else if ascii_lower(name) == sha512_name() {
        Some(HashAlgorithm::Sha512)
    } else if ascii_lower(name) == md5_name() {
        Some(HashAlgorithm::Md5)
    } else {
        None
    }
}

/// The digest length, in bytes, each algorithm produces.
pub open spec fn spec_digest_len(alg: HashAlgorithm) -> nat {
    match alg {
        HashAlgorithm::Sha256 => 32,
        HashAlgorithm::Sha512 => 64,
        HashAlgorithm::Md5 => 16,
    }
}

/// The digest the algorithm assigns to a byte sequence.
pub open spec fn spec_digest(alg: HashAlgorithm, data: Seq<u8>) -> Seq<u8> {
    match alg {
        HashAlgorithm::Sha256 => sha256_of(data),
        HashAlgorithm::Sha512 => sha512_of(data),
        HashAlgorithm::Md5 => md5_of(data),
    }
}

impl HashAlgorithm {
    /// Resolve an algorithm name, ignoring ASCII case.
    pub fn parse(name: &str) -> (r: Option<HashAlgorithm>)
        ensures
            r == spec_parse_algorithm(name.spec_bytes()),
    {
        let bytes = name.as_bytes();
        let sha256_target: [u8; 6] = [0x73, 0x68, 0x61, 0x32, 0x35, 0x36];
        let sha512_target: [u8; 6] = [0x73, 0x68, 0x61, 0x35, 0x31, 0x32];
        let md5_target: [u8; 3] = [0x6d, 0x64, 0x35];
        if lowered_matches(bytes, sha256_target.as_slice()) {
            proof {
                assert(sha256_target@ =~= sha256_name());
            }
            Some(HashAlgorithm::Sha256)
        } else if lowered_matches(bytes, sha512_target.as_slice()) {
            proof {
                assert(sha512_target@ =~= sha512_name());
                assert(sha256_target@ =~= sha256_name());
            }
            Some(HashAlgorithm::Sha512)
        } else if lowered_matches(bytes, md5_target.as_slice()) {
            proof {
                assert(md5_target@ =~= md5_name());
                assert(sha256_target@ =~= sha256_name());
                assert(sha512_target@ =~= sha512_name());
            }
            Some(HashAlgorithm::Md5)
        } else {
            proof {
                assert(sha256_target@ =~= sha256_name());
                assert(sha512_target@ =~= sha512_name());
                assert(md5_target@ =~= md5_name());
            }
            None
        }
    }
}

/// One hashing invocation's outcome: the algorithm name as given by the
/// caller, the lowercase hex digest, whether it matched the expectation, and
/// the caller-supplied expected digest, if any.
#[derive(Debug, Clone, PartialEq)]
pub struct HashResult {
    pub algorithm: String,
    pub hash: String,
    pub verified: bool,
    pub expected: Option<String>,
}

/// Hash `data` with the named algorithm, streaming it in fixed-size chunks
/// and publishing monotonically increasing progress after every chunk.
/// Unsupported algorithm names are rejected before any work begins.
pub fn calculate_hash_bytes(data: &[u8], algorithm: &str, state: &mut OperationState) -> (r:
    Result<HashResult, ErrorKind>)
    ensures
        r is Ok <==> spec_parse_algorithm(algorithm.spec_bytes()) is Some,
        r is Err ==> r == Err::<HashResult, ErrorKind>(ErrorKind::UnsupportedAlgorithm)
            && *final(state) == *old(state),
        r matches Ok(h) ==> {
            &&& string_bytes(h.hash) == hex_bytes(
                spec_digest(spec_parse_algorithm(algorithm.spec_bytes()).unwrap(), data@),
            )
            &&& h.algorithm@ == algorithm@
            &&& h.verified
            &&& h.expected is None
            &&& final(state).bytes_processed == data@.len()
            &&& final(state).total_bytes == data@.len()
        },
{
    let alg = match HashAlgorithm::parse(algorithm) {
        Some(alg) => alg,
        None => {
            return Err(ErrorKind::UnsupportedAlgorithm);
        },
    };
    state.begin_tracking(data.len() as u64);
    let digest = digest_chunked(data, alg, state);
    let hash = hex_encode(digest.as_slice());
    Ok(HashResult { algorithm: String::from_str(algorithm), hash, verified: true, expected: None })
}

/// A streaming digest computation for whichever of the supported algorithms
/// was selected; tracks the bytes absorbed so far.
pub enum DigestStream {
    Sha256(Sha256Stream),
    Sha512(Sha512Stream),
    Md5(Md5Stream),
}

impl DigestStream {
    /// The algorithm this stream computes.
    pub open spec fn algorithm(self) -> HashAlgorithm {
        match self {
            DigestStream::Sha256(_) => HashAlgorithm::Sha256,
            DigestStream::Sha512(_) => HashAlgorithm::Sha512,
            DigestStream::Md5(_) => HashAlgorithm::Md5,
        }
    }

    /// The bytes fed to the hasher so far.
    pub open spec fn absorbed(self) -> Seq<u8> {
        match self {
            DigestStream::Sha256(h) => h.absorbed(),
            DigestStream::Sha512(h) => h.absorbed(),
            DigestStream::Md5(h) => h.absorbed(),
        }
    }

    /// A fresh stream for the selected algorithm.
    pub fn new(alg: HashAlgorithm) -> (r: DigestStream)
        ensures
            r.algorithm() == alg,
            r.absorbed() == Seq::<u8>::empty(),
    {
        match alg {
            HashAlgorithm::Sha256 => DigestStream::Sha256(Sha256Stream::new()),
            HashAlgorithm::Sha512 => DigestStream::Sha512(Sha512Stream::new()),
            HashAlgorithm::Md5 => DigestStream::Md5(Md5Stream::new()),
        }
    }

    /// Feed one chunk.
    pub fn update(&mut self, chunk: &[u8])
        ensures
            final(self).algorithm() == old(self).algorithm(),
            final(self).absorbed() == old(self).absorbed() + chunk@,
    {
        match self {
            DigestStream::Sha256(h) => h.update(chunk),
            DigestStream::Sha512(h) => h.update(chunk),
            DigestStream::Md5(h) => h.update(chunk),
        }
    }

    /// The digest of everything absorbed.
    pub fn finalize(self) -> (r: Vec<u8>)
        ensures
            r@ == spec_digest(self.algorithm(), self.absorbed()),
            r@.len() == spec_digest_len(self.algorithm()),
    {
        match self {
            DigestStream::Sha256(h) => h.finalize(),
            DigestStream::Sha512(h) => h.finalize(),
            DigestStream::Md5(h) => h.finalize(),
        }
    }
}

/// Stream `data` through the selected hasher in fixed-size chunks, updating
/// the shared byte counter after every chunk.
fn digest_chunked(data: &[u8], alg: HashAlgorithm, state: &mut OperationState) -> (r: Vec<u8>)
    requires
        old(state).bytes_processed == 0,
        data@.len() <= u64::MAX,
    ensures
        r@ == spec_digest(alg, data@),
        r@.len() == spec_digest_len(alg),
        final(state).bytes_processed == data@.len(),
        final(state).in_progress == old(state).in_progress,
        final(state).total_bytes == old(state).total_bytes,
        final(state).stage == old(state).stage,
        final(state).cancel_requested == old(state).cancel_requested,
{
    let mut hasher = DigestStream::new(alg);
    let mut done: usize = 0;
    let total = data.len();
    while done < total
        invariant
            0 <= done <= total,
            total == data@.len() <= u64::MAX,
            hasher.algorithm() == alg,
            hasher.absorbed() == data@.subrange(0, done as int),
            state.bytes_processed == done,
            state.in_progress == old(state).in_progress,
            state.total_bytes == old(state).total_bytes,
            state.stage == old(state).stage,
            state.cancel_requested == old(state).cancel_requested,
        decreases total - done,
    {
        let n = if total - done < DIGEST_CHUNK_SIZE {
            total - done
        } else {
            DIGEST_CHUNK_SIZE
        };
        hasher.update(&data[done..done + n]);
        proof {
            assert(data@.subrange(0, done as int) + data@.subrange(
                done as int,
                (done + n) as int,
            ) =~= data@.subrange(0, (done + n) as int));
        }
        done = done + n;
        state.record_progress(done as u64);
    }
    proof {
        assert(data@.subrange(0, total as int) =~= data@);
    }
    hasher.finalize()
}

/// The lowercase-hex SHA-256 digest of `data`, streamed in fixed-size chunks
/// with the shared byte counter updated after every chunk.
pub fn sha256_hex(data: &[u8], state: &mut OperationState) -> (r: String)
    requires
        data@.len() <= u64::MAX,
    ensures
        string_bytes(r) == hex_bytes(sha256_of(data@)),
        r@.len() == 64,
        final(state).bytes_processed == data@.len(),
        final(state).total_bytes == data@.len(),
        final(state).in_progress == old(state).in_progress,
        final(state).stage == old(state).stage,
        final(state).cancel_requested == old(state).cancel_requested,
{
    state.begin_tracking(data.len() as u64);
    let digest = digest_chunked(data, HashAlgorithm::Sha256, state);
    hex_encode(digest.as_slice())
}

/// Hash `data` and compare the digest with `expected_hash`, ignoring ASCII
/// case; the expectation is recorded unchanged in the result.
pub fn verify_hash_bytes(
    data: &[u8],
    expected_hash: &str,
    algorithm: &str,
    state: &mut OperationState,
) -> (r: Result<HashResult, ErrorKind>)
    ensures
        r is Ok <==> spec_parse_algorithm(algorithm.spec_bytes()) is Some,
        r is Err ==> r == Err::<HashResult, ErrorKind>(ErrorKind::UnsupportedAlgorithm),
        r matches Ok(h) ==> {
            &&& string_bytes(h.hash) == hex_bytes(
                spec_digest(spec_parse_algorithm(algorithm.spec_bytes()).unwrap(), data@),
            )
            &&& (h.verified <==> ascii_lower(expected_hash.spec_bytes()) == hex_bytes(
                spec_digest(spec_parse_algorithm(algorithm.spec_bytes()).unwrap(), data@),
            ))
            &&& h.algorithm@ == algorithm@
            &&& h.expected matches Some(e) && e@ == expected_hash@
        },
{
    let computed = match calculate_hash_bytes(data, algorithm, state) {
        Ok(h) => h,
        Err(e) => {
            return Err(e);
        },
    };
    let verified = eq_ignore_ascii(computed.hash.as_str().as_bytes(), expected_hash.as_bytes());
    proof {
        lemma_hex_bytes_lowercase(
            spec_digest(spec_parse_algorithm(algorithm.spec_bytes()).unwrap(), data@),
        );
    }
    Ok(
        HashResult {
            algorithm: String::from_str(algorithm),
            hash: computed.hash,
            verified,
            expected: Some(String::from_str(expected_hash)),
        },
    )
}

} // verus!
