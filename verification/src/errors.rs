use vstd::prelude::*;

verus! {

/// The failure kinds of the envelope-encryption subsystem. Every operation
/// either succeeds or reports exactly one of these; no failure is ever
/// converted into a default or empty value.
#[derive(Clone, Copy, Debug, PartialEq, Eq, Structural)]
pub enum CryptoError {
    /// A symmetric key was not exactly 32 bytes.
    InvalidKeySize,
    /// A nonce was not exactly 12 bytes.
    InvalidNonceSize,
    /// The authentication tag did not verify against the ciphertext, key and
    /// nonce: tamper, corruption, or a wrong key.
    AuthenticationFailure,
    /// The symmetric cipher refused the payload (oversized plaintext).
    EncryptionFailure,
    /// The RSA wrap of a symmetric key failed: malformed public key, or a
    /// payload beyond the modulus capacity.
    WrapFailure,
    /// The RSA unwrap failed: padding or key mismatch.
    UnwrapFailure,
    /// The RSA key-pair generator failed (entropy or library failure).
    KeyGenerationFailure,
    /// PEM text did not decode to a key.
    KeyDecodeFailure,
    /// A key could not be encoded to PEM (internal encoder error).
    KeyEncodeFailure,
    /// Text was not valid standard base64.
    Base64DecodeFailure,
}

impl CryptoError {
    /// A short description of the failure, free of any key material.
    pub fn describe(&self) -> &'static str {
        match self {
            CryptoError::InvalidKeySize => "invalid AES key size",
            CryptoError::InvalidNonceSize => "invalid nonce size",
            CryptoError::AuthenticationFailure => "ciphertext failed authentication",
            CryptoError::EncryptionFailure => "failed to encrypt data",
            CryptoError::WrapFailure => "failed to encrypt AES key with RSA",
            CryptoError::UnwrapFailure => "failed to decrypt AES key with RSA",
            CryptoError::KeyGenerationFailure => "failed to generate RSA key pair",
            CryptoError::KeyDecodeFailure => "failed to import key from PEM",
            CryptoError::KeyEncodeFailure => "failed to export key to PEM",
            CryptoError::Base64DecodeFailure => "failed to decode base64",
        }
    }
}

} // verus!
