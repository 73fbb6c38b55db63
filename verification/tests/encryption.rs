use n01d_forge::encryption::{
    decrypt_aes256gcm, derive_key, encrypt_aes256gcm, EncryptionConfig, EncryptionType,
    LuksHeader, VeraCryptHeader, VERACRYPT_ENCRYPTED_AREA_START,
};
use n01d_forge::errors::ErrorKind;
use n01d_forge::rng::{generate_random_bytes, generate_salt};
use n01d_forge::veracrypt_algorithms;
use n01d_forge::veracrypt_hashes;

#[test]
fn test_key_derivation() {
    let password = "test_password";
    let salt = generate_salt();

    let key1 = derive_key(password, &salt).unwrap();
    let key2 = derive_key(password, &salt).unwrap();

    assert_eq!(key1, key2);
}

#[test]
fn test_aes_encryption() {
    let key = [0u8; 32];
    let data = b"Hello, World!";

    let encrypted = encrypt_aes256gcm(data, &key).unwrap();
    let decrypted = decrypt_aes256gcm(&encrypted, &key).unwrap();

    assert_eq!(data.to_vec(), decrypted);
}

#[test]
fn test_key_derivation_different_salts() {
    let password = "test_password";
    let salt1 = generate_salt();
    let salt2 = generate_salt();
    assert_ne!(salt1, salt2);
    let key1 = derive_key(password, &salt1).unwrap();
    let key2 = derive_key(password, &salt2).unwrap();
    assert_eq!(key1.len(), 32);
    assert_ne!(key1, key2);
}

#[test]
fn test_key_derivation_salt_too_short() {
    let salt = vec![1u8; 4];
    let r = derive_key("password", &salt);
    assert_eq!(r.unwrap_err(), ErrorKind::KeyDerivationFailed);
}

#[test]
fn test_encrypted_blob_layout() {
    let key = generate_random_bytes(32);
    let data = b"some plaintext";
    let blob = encrypt_aes256gcm(data, &key).unwrap();
    // 12-byte nonce, ciphertext, 16-byte tag.
    assert_eq!(blob.len(), data.len() + 28);
    // A fresh nonce per call: two encryptions of the same data differ.
    let blob2 = encrypt_aes256gcm(data, &key).unwrap();
    assert_ne!(blob, blob2);
    assert_eq!(decrypt_aes256gcm(&blob2, &key).unwrap(), data.to_vec());
}

#[test]
fn test_tamper_detection_every_byte() {
    let key = generate_random_bytes(32);
    let data = b"tamper target";
    let blob = encrypt_aes256gcm(data, &key).unwrap();
    for i in 0..blob.len() {
        let mut tampered = blob.clone();
        tampered[i] ^= 0x01;
        let r = decrypt_aes256gcm(&tampered, &key);
        assert_eq!(r.unwrap_err(), ErrorKind::AuthenticationFailed, "byte {i}");
    }
}

#[test]
fn test_wrong_key_fails_authentication() {
    let key = generate_random_bytes(32);
    let other = vec![0x42u8; 32];
    let blob = encrypt_aes256gcm(b"secret", &key).unwrap();
    assert_eq!(
        decrypt_aes256gcm(&blob, &other).unwrap_err(),
        ErrorKind::AuthenticationFailed
    );
}

#[test]
fn test_decrypt_rejects_short_input() {
    let key = [0u8; 32];
    for len in 0..12 {
        let blob = vec![0u8; len];
        assert_eq!(
            decrypt_aes256gcm(&blob, &key).unwrap_err(),
            ErrorKind::MalformedCiphertext,
            "len {len}"
        );
    }
}

#[test]
fn test_encrypt_empty_plaintext_round_trip() {
    let key = generate_random_bytes(32);
    let blob = encrypt_aes256gcm(b"", &key).unwrap();
    assert_eq!(blob.len(), 28);
    assert_eq!(decrypt_aes256gcm(&blob, &key).unwrap(), Vec::<u8>::new());
}

#[test]
fn test_luks_header() {
    let header = LuksHeader::new("aes-xts-plain64", "sha512", 512, 100000);
    assert_eq!(header.version, 2);
    assert_eq!(header.cipher_name, "aes");
    assert_eq!(header.cipher_mode, "aes-xts-plain64");
    assert_eq!(header.hash_spec, "sha512");
    assert_eq!(header.payload_offset, 4096);
    assert_eq!(header.key_bytes, 64);
    assert_eq!(header.mk_digest, vec![0u8; 20]);
    assert_eq!(header.mk_digest_salt.len(), 32);
    assert_eq!(header.mk_digest_iter, 100000);
    assert_eq!(header.uuid.len(), 36);
}

#[test]
fn test_veracrypt_header_geometry() {
    let header = VeraCryptHeader::new(
        10_000_000,
        veracrypt_algorithms::AES,
        veracrypt_hashes::SHA512,
    );
    assert_eq!(header.encrypted_area_start, 131072);
    assert_eq!(header.encrypted_area_length, 10_000_000 - 131072);
    assert_eq!(header.volume_size, 10_000_000);
    assert_eq!(header.version, 5);
    assert_eq!(header.required_program_version, 0x10b);
    assert_eq!(header.sector_size, 512);
    assert_eq!(header.hidden_volume_size, 0);
    assert_eq!(header.encryption_algorithm, 1);
    assert_eq!(header.hash_algorithm, 1);
    assert_eq!(header.master_key.len(), 64);
    assert_eq!(header.secondary_key.len(), 64);
    assert_eq!(header.salt.len(), 64);
    assert_eq!(header.volume_creation_time, header.header_creation_time);
    assert_eq!(VERACRYPT_ENCRYPTED_AREA_START, 131072);
}

#[test]
fn test_veracrypt_fresh_key_material() {
    let a = VeraCryptHeader::new(1_000_000, 1, 1);
    let b = VeraCryptHeader::new(1_000_000, 1, 1);
    assert_ne!(a.master_key, b.master_key);
    assert_ne!(a.secondary_key, b.secondary_key);
    assert_ne!(a.salt, b.salt);
}

#[test]
fn test_encryption_config_default() {
    let config = EncryptionConfig::default();
    assert!(matches!(config.encryption_type, EncryptionType::Luks2));
    assert_eq!(config.cipher, "aes-xts-plain64");
    assert_eq!(config.key_size, 512);
    assert_eq!(config.hash_algorithm, "sha512");
    assert_eq!(config.iterations, 100000);
}

#[test]
fn test_generate_random_bytes_lengths() {
    assert_eq!(generate_random_bytes(0).len(), 0);
    assert_eq!(generate_random_bytes(17).len(), 17);
    assert_eq!(generate_salt().len(), 32);
}
