use std::collections::HashSet;

use medirust::crypto::CryptoUtils;
use medirust::errors::CryptoError;

#[test]
fn generated_key_is_32_bytes() {
    let key = CryptoUtils::generate_aes_key();
    assert_eq!(key.len(), 32);
}

#[test]
fn key_uniqueness_across_many_samples() {
    let mut seen: HashSet<Vec<u8>> = HashSet::new();
    for _ in 0..10_000 {
        let key = CryptoUtils::generate_aes_key();
        assert!(seen.insert(key), "two generated keys were identical");
    }
}

#[test]
fn nonce_non_reuse_across_many_samples() {
    let key = CryptoUtils::generate_aes_key();
    let mut seen: HashSet<Vec<u8>> = HashSet::new();
    for _ in 0..10_000 {
        let (_, nonce) = CryptoUtils::encrypt_data(b"x", &key).unwrap();
        assert!(seen.insert(nonce), "two encryptions drew the same nonce");
    }
}

#[test]
fn symmetric_round_trip() {
    let key = CryptoUtils::generate_aes_key();
    let plaintext = b"some sensitive medical document";
    let (ciphertext, nonce) = CryptoUtils::encrypt_data(plaintext, &key).unwrap();
    assert_eq!(nonce.len(), 12);
    assert_eq!(ciphertext.len(), plaintext.len() + 16);
    assert_ne!(&ciphertext[..plaintext.len()], &plaintext[..]);
    let recovered = CryptoUtils::decrypt_data(&ciphertext, &key, &nonce).unwrap();
    assert_eq!(recovered, plaintext.to_vec());
}

#[test]
fn empty_plaintext_round_trip() {
    let key = CryptoUtils::generate_aes_key();
    let (ciphertext, nonce) = CryptoUtils::encrypt_data(b"", &key).unwrap();
    assert_eq!(ciphertext.len(), 16);
    let recovered = CryptoUtils::decrypt_data(&ciphertext, &key, &nonce).unwrap();
    assert!(recovered.is_empty());
}

#[test]
fn encrypt_rejects_wrong_key_size() {
    let short_key = vec![0u8; 31];
    let r = CryptoUtils::encrypt_data(b"data", &short_key);
    assert_eq!(r.unwrap_err(), CryptoError::InvalidKeySize);
}

#[test]
fn decrypt_rejects_wrong_key_size() {
    let long_key = vec![0u8; 33];
    let nonce = vec![0u8; 12];
    let r = CryptoUtils::decrypt_data(b"anything", &long_key, &nonce);
    assert_eq!(r.unwrap_err(), CryptoError::InvalidKeySize);
}

#[test]
fn decrypt_rejects_wrong_nonce_size() {
    let key = CryptoUtils::generate_aes_key();
    let nonce = vec![0u8; 11];
    let r = CryptoUtils::decrypt_data(b"anything", &key, &nonce);
    assert_eq!(r.unwrap_err(), CryptoError::InvalidNonceSize);
}

#[test]
fn decrypt_under_wrong_symmetric_key_fails_authentication() {
    let key = CryptoUtils::generate_aes_key();
    let other = CryptoUtils::generate_aes_key();
    let (ciphertext, nonce) = CryptoUtils::encrypt_data(b"payload", &key).unwrap();
    let r = CryptoUtils::decrypt_data(&ciphertext, &other, &nonce);
    assert_eq!(r.unwrap_err(), CryptoError::AuthenticationFailure);
}

#[test]
fn tamper_detection_on_every_bit() {
    let key = CryptoUtils::generate_aes_key();
    let (ciphertext, nonce) = CryptoUtils::encrypt_data(b"short note", &key).unwrap();
    for byte_index in 0..ciphertext.len() {
        for bit in 0..8 {
            let mut tampered = ciphertext.clone();
            tampered[byte_index] ^= 1u8 << bit;
            let r = CryptoUtils::decrypt_data(&tampered, &key, &nonce);
            assert_eq!(
                r.unwrap_err(),
                CryptoError::AuthenticationFailure,
                "flipping bit {bit} of byte {byte_index} went undetected"
            );
        }
    }
}

#[test]
fn base64_known_vector() {
    let encoded = CryptoUtils::encode_base64(&[104, 105]);
    assert_eq!(encoded, "aGk=");
    let decoded = CryptoUtils::decode_base64("aGk=").unwrap();
    assert_eq!(decoded, vec![104, 105]);
    assert_eq!(CryptoUtils::encode_base64(&[]), "");
}

#[test]
fn base64_round_trip() {
    let data: Vec<u8> = (0..=255).collect();
    let encoded = CryptoUtils::encode_base64(&data);
    assert_eq!(encoded.len(), (data.len() + 2) / 3 * 4);
    let decoded = CryptoUtils::decode_base64(&encoded).unwrap();
    assert_eq!(decoded, data);
}

#[test]
fn base64_rejects_invalid_text() {
    let r = CryptoUtils::decode_base64("not base64!!!");
    assert_eq!(r.unwrap_err(), CryptoError::Base64DecodeFailure);
}
