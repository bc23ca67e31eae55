use medirust::crypto::CryptoUtils;
use medirust::envelope::RecordEnvelope;
use medirust::errors::CryptoError;

#[test]
fn seal_unseal_round_trip() {
    let (private_key, public_key) = CryptoUtils::generate_rsa_key_pair().unwrap();
    let plaintext = b"a full medical history, encrypted end to end";
    let sealed = RecordEnvelope::seal(plaintext, &public_key).unwrap();
    let recovered = RecordEnvelope::unseal(
        &sealed.ciphertext,
        &sealed.wrapped_key,
        &sealed.nonce,
        &private_key,
    )
    .unwrap();
    assert_eq!(recovered, plaintext.to_vec());
}

#[test]
fn seal_unseal_round_trip_empty_plaintext() {
    let (private_key, public_key) = CryptoUtils::generate_rsa_key_pair().unwrap();
    let sealed = RecordEnvelope::seal(b"", &public_key).unwrap();
    let recovered = RecordEnvelope::unseal(
        &sealed.ciphertext,
        &sealed.wrapped_key,
        &sealed.nonce,
        &private_key,
    )
    .unwrap();
    assert!(recovered.is_empty());
}

#[test]
fn tamper_detection_through_unseal() {
    let (private_key, public_key) = CryptoUtils::generate_rsa_key_pair().unwrap();
    let sealed = RecordEnvelope::seal(b"short note", &public_key).unwrap();
    let last = sealed.ciphertext.len() - 1;
    for byte_index in [0, last / 2, last] {
        let mut tampered = sealed.ciphertext.clone();
        tampered[byte_index] ^= 1;
        let r = RecordEnvelope::unseal(
            &tampered,
            &sealed.wrapped_key,
            &sealed.nonce,
            &private_key,
        );
        assert_eq!(
            r.unwrap_err(),
            CryptoError::AuthenticationFailure,
            "tampering with byte {byte_index} went undetected"
        );
    }
}

#[test]
fn wrong_private_key_is_rejected() {
    let (_, public_a) = CryptoUtils::generate_rsa_key_pair().unwrap();
    let (private_b, _) = CryptoUtils::generate_rsa_key_pair().unwrap();
    let sealed = RecordEnvelope::seal(b"for recipient A only", &public_a).unwrap();
    let r = RecordEnvelope::unseal(
        &sealed.ciphertext,
        &sealed.wrapped_key,
        &sealed.nonce,
        &private_b,
    );
    assert_eq!(r.unwrap_err(), CryptoError::UnwrapFailure);
}

#[test]
fn blood_type_scenario() {
    let plaintext = b"blood type: O+";
    let (private_key, public_key) = CryptoUtils::generate_rsa_key_pair().unwrap();
    let sealed = RecordEnvelope::seal(plaintext, &public_key).unwrap();

    let recovered = RecordEnvelope::unseal(
        &sealed.ciphertext,
        &sealed.wrapped_key,
        &sealed.nonce,
        &private_key,
    )
    .unwrap();
    assert_eq!(String::from_utf8(recovered).unwrap(), "blood type: O+");

    let (other_private, _) = CryptoUtils::generate_rsa_key_pair().unwrap();
    let r = RecordEnvelope::unseal(
        &sealed.ciphertext,
        &sealed.wrapped_key,
        &sealed.nonce,
        &other_private,
    );
    assert_eq!(r.unwrap_err(), CryptoError::UnwrapFailure);
}

#[test]
fn malformed_base64_fields_are_rejected() {
    let (private_key, public_key) = CryptoUtils::generate_rsa_key_pair().unwrap();
    let sealed = RecordEnvelope::seal(b"record", &public_key).unwrap();
    let r = RecordEnvelope::unseal(&sealed.ciphertext, "@@@", &sealed.nonce, &private_key);
    assert_eq!(r.unwrap_err(), CryptoError::Base64DecodeFailure);
    let r = RecordEnvelope::unseal(&sealed.ciphertext, &sealed.wrapped_key, "@@@", &private_key);
    assert_eq!(r.unwrap_err(), CryptoError::Base64DecodeFailure);
}

#[test]
fn error_descriptions_name_the_failing_step() {
    assert_eq!(
        CryptoError::UnwrapFailure.describe(),
        "failed to decrypt AES key with RSA"
    );
    assert_eq!(
        CryptoError::AuthenticationFailure.describe(),
        "ciphertext failed authentication"
    );
}
