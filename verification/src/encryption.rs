//! Key/header engine: password-based key derivation (Argon2id), authenticated
//! encryption (AES-256-GCM with a fresh nonce per call), and construction of
//! LUKS2-style and VeraCrypt-style volume-header records.

use vstd::prelude::*;
use vstd::string::StringSliceAdditionalSpecFns;

use aes_gcm::aead::{Aead, KeyInit};

use crate::errors::ErrorKind;
use crate::rng::{generate_random_bytes, generate_salt};

verus! {

/// Which block-level encryption scheme a run sets up.
#[derive(Debug, Clone, Copy, PartialEq, Eq, Structural)]
pub enum EncryptionType {
    NoEncryption,
    Luks,
    Luks2,
    VeraCrypt,
    Aes256Gcm,
}

/// Parameters of an encryption setup.
#[derive(Debug, Clone)]
pub struct EncryptionConfig {
    pub encryption_type: EncryptionType,
    pub cipher: String,
    pub key_size: u32,
    pub hash_algorithm: String,
    pub iterations: u32,
}

impl Default for EncryptionConfig {
    /// LUKS2 with AES-XTS, a 512-bit key, SHA-512 and 100000 iterations.
    fn default() -> (r: Self)
        ensures
            r.encryption_type == EncryptionType::Luks2,
            r.cipher@ == "aes-xts-plain64"@,
            r.key_size == 512,
            r.hash_algorithm@ == "sha512"@,
            r.iterations == 100000,
    {
        EncryptionConfig {
            encryption_type: EncryptionType::Luks2,
            cipher: String::from_str("aes-xts-plain64"),
            key_size: 512,
            hash_algorithm: String::from_str("sha512"),
            iterations: 100000,
        }
    }
}

/// The 32-byte key Argon2id (argon2's default parameters) derives from a
/// password and a salt. Deterministic: a function of the two inputs alone.
pub uninterp spec fn argon2id_of(password: Seq<u8>, salt: Seq<u8>) -> Seq<u8>;

/// Key derivation is deterministic: two derivations from the same password
/// and salt yield the same 32-byte key.
pub proof fn lemma_derive_key_deterministic(
    password: Seq<u8>,
    salt: Seq<u8>,
    key1: Seq<u8>,
    key2: Seq<u8>,
)
    requires
        key1 == argon2id_of(password, salt),
        key2 == argon2id_of(password, salt),
    ensures
        key1 == key2,
{
}

/// Relies on argon2::Argon2::hash_password_into with the crate's default
/// parameters (Argon2id, version 19): fills the 32-byte output
/// deterministically from password and salt; fails exactly when the salt is
/// shorter than 8 bytes or longer than 2^32 - 1 bytes (the password length
/// bound is in requires; the 32-byte output length is always valid).
#[verifier::external_body]
fn argon2id_hash(password: &[u8], salt: &[u8]) -> (r: Option<Vec<u8>>)
    requires
        password@.len() <= 0xFFFF_FFFF,
    ensures
        r is Some <==> 8 <= salt@.len() <= 0xFFFF_FFFF,
        r matches Some(key) ==> key@ == argon2id_of(password@, salt@) && key@.len() == 32,
{
    let mut key = [0u8; 32];
    match argon2::Argon2::default().hash_password_into(password, salt, &mut key) {
        Ok(()) => Some(key.to_vec()),
        Err(_) => None,
    }
}

/// Derive a 32-byte encryption key from a password and a salt using Argon2id.
/// Deterministic: identical inputs always yield the identical key. Fails,
/// with `KeyDerivationFailed`, exactly when the salt length is outside
/// 8..=2^32 - 1 bytes.
pub fn derive_key(password: &str, salt: &[u8]) -> (r: Result<Vec<u8>, ErrorKind>)
    requires
        password.spec_bytes().len() <= 0xFFFF_FFFF,
    ensures
        r is Ok <==> 8 <= salt@.len() <= 0xFFFF_FFFF,
        r matches Ok(key) ==> key@ == argon2id_of(password.spec_bytes(), salt@)
            && key@.len() == 32,
        r is Err ==> r == Err::<Vec<u8>, ErrorKind>(ErrorKind::KeyDerivationFailed),
{
    match argon2id_hash(password.as_bytes(), salt) {
        Some(key) => Ok(key),
        None => Err(ErrorKind::KeyDerivationFailed),
    }
}

/// What AES-256-GCM produces for a key, nonce and plaintext: the ciphertext
/// with the 16-byte authentication tag appended. A function of the three
/// inputs alone.
pub uninterp spec fn aes256gcm_seal(key: Seq<u8>, nonce: Seq<u8>, plaintext: Seq<u8>) -> Seq<u8>;

/// What AES-256-GCM decryption yields for a key, nonce and tagged ciphertext:
/// the plaintext when the tag authenticates, None when decryption fails.
pub uninterp spec fn aes256gcm_open(key: Seq<u8>, nonce: Seq<u8>, ciphertext: Seq<u8>) -> Option<
    Seq<u8>,
>;

/// Relies on aes_gcm::Aes256Gcm (KeyInit::new_from_slice and Aead::encrypt):
/// with a 32-byte key, a 12-byte nonce and a plaintext within the AES-GCM
/// size bound, encryption succeeds and returns ciphertext plus a 16-byte tag,
/// and decrypting that output with the same key and nonce returns the
/// plaintext (the documented AEAD round trip).
#[verifier::external_body]
fn aes256gcm_encrypt_raw(key: &[u8], nonce: &[u8], plaintext: &[u8]) -> (r: Vec<u8>)
    requires
        key@.len() == 32,
        nonce@.len() == 12,
        plaintext@.len() <= 0x10_0000_0000,
    ensures
        r@ == aes256gcm_seal(key@, nonce@, plaintext@),
        r@.len() == plaintext@.len() + 16,
        aes256gcm_open(key@, nonce@, r@) == Some(plaintext@),
{
    let cipher = aes_gcm::Aes256Gcm::new_from_slice(key).unwrap();
    cipher.encrypt(aes_gcm::Nonce::from_slice(nonce), plaintext).unwrap()
}

/// Relies on aes_gcm::Aes256Gcm (KeyInit::new_from_slice and Aead::decrypt):
/// with a 32-byte key and a 12-byte nonce, returns the plaintext exactly when
/// the authentication tag verifies, and None when decryption fails.
#[verifier::external_body]
fn aes256gcm_decrypt_raw(key: &[u8], nonce: &[u8], ciphertext: &[u8]) -> (r: Option<Vec<u8>>)
    requires
        key@.len() == 32,
        nonce@.len() == 12,
    ensures
        r matches Some(p) ==> aes256gcm_open(key@, nonce@, ciphertext@) == Some(p@),
        r is None <==> aes256gcm_open(key@, nonce@, ciphertext@) is None,
{
    let cipher = aes_gcm::Aes256Gcm::new_from_slice(key).unwrap();
    match cipher.decrypt(aes_gcm::Nonce::from_slice(nonce), ciphertext) {
        Ok(p) => Some(p),
        Err(_) => None,
    }
}

/// What decrypting a `nonce || ciphertext_with_tag` blob yields: None when
/// the blob is even too short to hold the 12-byte nonce.
pub open spec fn spec_open_blob(key: Seq<u8>, blob: Seq<u8>) -> Option<Seq<u8>> {
    if blob.len() >= 12 {
        aes256gcm_open(key, blob.subrange(0, 12), blob.subrange(12, blob.len() as int))
    } else {
        None
    }
}

/// The typed outcome of `decrypt_aes256gcm` on a blob.
pub open spec fn spec_decrypt_aes256gcm(blob: Seq<u8>, key: Seq<u8>) -> Result<Seq<u8>, ErrorKind> {
    if blob.len() < 12 {
        Err(ErrorKind::MalformedCiphertext)
    } else {
        match spec_open_blob(key, blob) {
            Some(p) => Ok(p),
            None => Err(ErrorKind::AuthenticationFailed),
        }
    }
}

/// AEAD round trip: a blob that authenticates under a key — in particular the
/// blob `encrypt_aes256gcm` builds for a plaintext — decrypts to exactly that
/// plaintext, never to anything else.
pub proof fn lemma_aead_round_trip(key: Seq<u8>, blob: Seq<u8>, plaintext: Seq<u8>)
    requires
        spec_open_blob(key, blob) == Some(plaintext),
    ensures
        spec_decrypt_aes256gcm(blob, key) == Ok::<Seq<u8>, ErrorKind>(plaintext),
{
}

/// Encrypt data with AES-256-GCM under a 32-byte key: draws a fresh random
/// 12-byte nonce and returns `nonce || ciphertext_with_tag`, a blob that
/// decrypts back to the data under the same key.
pub fn encrypt_aes256gcm(data: &[u8], key: &[u8]) -> (r: Result<Vec<u8>, ErrorKind>)
    requires
        key@.len() == 32,
        data@.len() <= 0x10_0000_0000,
    ensures
        r is Ok,
        r matches Ok(blob) ==> {
            &&& blob@.len() == data@.len() + 28
            &&& blob@.subrange(12, blob@.len() as int) == aes256gcm_seal(
                key@,
                blob@.subrange(0, 12),
                data@,
            )
            &&& spec_open_blob(key@, blob@) == Some(data@)
        },
{
    let nonce = generate_random_bytes(12);
    let ciphertext = aes256gcm_encrypt_raw(key, nonce.as_slice(), data);
    let ghost nonce_view = nonce@;
    let ghost ct_view = ciphertext@;
    let mut blob = nonce;
    let mut tail = ciphertext;
    blob.append(&mut tail);
    proof {
        assert(blob@ =~= nonce_view + ct_view);
        assert(blob@.subrange(0, 12) =~= nonce_view);
        assert(blob@.subrange(12, blob@.len() as int) =~= ct_view);
    }
    Ok(blob)
}

/// Decrypt a `nonce || ciphertext_with_tag` blob with AES-256-GCM under a
/// 32-byte key. Input shorter than the 12-byte nonce is malformed; an
/// authentication failure (tampering, wrong key) is reported as an error,
/// never as garbage plaintext.
pub fn decrypt_aes256gcm(encrypted: &[u8], key: &[u8]) -> (r: Result<Vec<u8>, ErrorKind>)
    requires
        key@.len() == 32,
    ensures
        r is Ok <==> spec_decrypt_aes256gcm(encrypted@, key@) is Ok,
        r matches Ok(p) ==> spec_decrypt_aes256gcm(encrypted@, key@) == Ok::<Seq<u8>, ErrorKind>(
            p@,
        ),
        r matches Err(e) ==> spec_decrypt_aes256gcm(encrypted@, key@) == Err::<Seq<u8>, ErrorKind>(
            e,
        ),
{
    if encrypted.len() < 12 {
        return Err(ErrorKind::MalformedCiphertext);
    }
    let nonce = &encrypted[0..12];
    let ciphertext = &encrypted[12..encrypted.len()];
    match aes256gcm_decrypt_raw(key, nonce, ciphertext) {
        Some(p) => Ok(p),
        None => Err(ErrorKind::AuthenticationFailed),
    }
}

/// Relies on uuid::Uuid::new_v4 and its Display rendering: a random version-4
/// UUID formats as the 36-character hyphenated form.
#[verifier::external_body]
fn uuid_v4_string() -> (r: String)
    ensures
        r@.len() == 36,
{
    uuid::Uuid::new_v4().to_string()
}

/// Relies on std::time::SystemTime::now and duration_since: seconds since the
/// Unix epoch, or zero if the clock reads earlier than the epoch.
#[verifier::external_body]
pub(crate) fn unix_time_secs() -> u64 {
    std::time::SystemTime::now()
        .duration_since(std::time::UNIX_EPOCH)
        .map(|d| d.as_secs())
        .unwrap_or(0)
}

/// LUKS2-style header record (simplified): cipher and hash specification, a
/// freshly generated UUID and a fresh 32-byte salt.
#[derive(Debug, Clone)]
pub struct LuksHeader {
    pub version: u16,
    pub cipher_name: String,
    pub cipher_mode: String,
    pub hash_spec: String,
    pub payload_offset: u64,
    pub key_bytes: u32,
    pub mk_digest: Vec<u8>,
    pub mk_digest_salt: Vec<u8>,
    pub mk_digest_iter: u32,
    pub uuid: String,
}

impl LuksHeader {
    /// Build a LUKS2-style header: version 2, AES with the requested mode,
    /// payload at 4096, key size converted from bits to bytes, a zeroed
    /// 20-byte master-key digest, a fresh random 32-byte salt and a fresh
    /// UUID.
    pub fn new(cipher: &str, hash: &str, key_size: u32, iterations: u32) -> (r: LuksHeader)
        ensures
            r.version == 2,
            r.cipher_name@ == "aes"@,
            r.cipher_mode@ == cipher@,
            r.hash_spec@ == hash@,
            r.payload_offset == 4096,
            r.key_bytes == key_size / 8,
            r.mk_digest@.len() == 20,
            forall|i: int| 0 <= i < 20 ==> r.mk_digest@[i] == 0,
            r.mk_digest_salt@.len() == 32,
            r.mk_digest_iter == iterations,
            r.uuid@.len() == 36,
    {
        let mut mk_digest: Vec<u8> = Vec::new();
        let mut i: usize = 0;
        while i < 20
            invariant
                0 <= i <= 20,
                mk_digest@.len() == i,
                forall|j: int| 0 <= j < i ==> mk_digest@[j] == 0,
            decreases 20 - i,
        {
            mk_digest.push(0u8);
            i = i + 1;
        }
        LuksHeader {
            version: 2,
            cipher_name: String::from_str("aes"),
            cipher_mode: String::from_str(cipher),
            hash_spec: String::from_str(hash),
            payload_offset: 4096,
            key_bytes: key_size / 8,
            mk_digest,
            mk_digest_salt: generate_salt(),
            mk_digest_iter: iterations,
            uuid: uuid_v4_string(),
        }
    }
}

/// The fixed offset, in bytes, at which a VeraCrypt-style volume's encrypted
/// area begins (128 KiB).
pub const VERACRYPT_ENCRYPTED_AREA_START: u64 = 131072;

/// VeraCrypt-style volume header (simplified): volume geometry, algorithm
/// identifiers, and freshly generated 64-byte master key, secondary key and
/// salt.
#[derive(Debug, Clone)]
pub struct VeraCryptHeader {
    pub version: u16,
    pub required_program_version: u16,
    pub crc32: u32,
    pub volume_creation_time: u64,
    pub header_creation_time: u64,
    pub hidden_volume_size: u64,
    pub volume_size: u64,
    pub encrypted_area_start: u64,
    pub encrypted_area_length: u64,
    pub flags: u32,
    pub sector_size: u32,
    pub encryption_algorithm: u32,
    pub hash_algorithm: u32,
    pub master_key: Vec<u8>,
    pub secondary_key: Vec<u8>,
    pub salt: Vec<u8>,
}

impl VeraCryptHeader {
    /// Build a VeraCrypt-style header for a volume of `volume_size` bytes:
    /// the encrypted area starts at the fixed 128 KiB offset and covers
    /// exactly the rest of the volume; key material and salt are drawn fresh
    /// from the secure random source, never reused across volumes.
    pub fn new(volume_size: u64, encryption_algo: u32, hash_algo: u32) -> (r: VeraCryptHeader)
        requires
            volume_size >= VERACRYPT_ENCRYPTED_AREA_START,
        ensures
            r.version == 5,
            r.required_program_version == 0x10b,
            r.crc32 == 0,
            r.volume_creation_time == r.header_creation_time,
            r.hidden_volume_size == 0,
            r.volume_size == volume_size,
            r.encrypted_area_start == VERACRYPT_ENCRYPTED_AREA_START,
            r.encrypted_area_length == volume_size - VERACRYPT_ENCRYPTED_AREA_START,
            r.flags == 0,
            r.sector_size == 512,
            r.encryption_algorithm == encryption_algo,
            r.hash_algorithm == hash_algo,
            r.master_key@.len() == 64,
            r.secondary_key@.len() == 64,
            r.salt@.len() == 64,
    {
        let now = unix_time_secs();
        VeraCryptHeader {
            version: 5,
            required_program_version: 0x10b,
            crc32: 0,
            volume_creation_time: now,
            header_creation_time: now,
            hidden_volume_size: 0,
            volume_size,
            encrypted_area_start: VERACRYPT_ENCRYPTED_AREA_START,
            encrypted_area_length: volume_size - VERACRYPT_ENCRYPTED_AREA_START,
            flags: 0,
            sector_size: 512,
            encryption_algorithm: encryption_algo,
            hash_algorithm: hash_algo,
            master_key: generate_random_bytes(64),
            secondary_key: generate_random_bytes(64),
            salt: generate_random_bytes(64),
        }
    }
}

} // verus!
