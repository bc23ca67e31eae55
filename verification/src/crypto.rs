use vstd::prelude::*;

use crate::b64::b64_decode_raw;
use crate::b64::b64_encode_raw;
use crate::b64::b64_of;
use crate::b64::b64_parse;
use crate::errors::CryptoError;
use crate::rsa_keys::parse_private_pem;
use crate::rsa_keys::parse_public_pem;
use crate::rsa_keys::rsa_generate_der;
use crate::rsa_keys::rsa_private_from_pem;
use crate::rsa_keys::rsa_private_to_pem;
use crate::rsa_keys::rsa_k_of;
use crate::rsa_keys::rsa_private_canon;
use crate::rsa_keys::rsa_private_valid;
use crate::rsa_keys::rsa_public_from_pem;
use crate::rsa_keys::rsa_public_to_pem;
use crate::rsa_keys::rsa_public_of;
use crate::rsa_keys::rsa_public_valid;
use crate::rsa_keys::rsa_unwrap;
use crate::rsa_keys::rsa_wrap_fits;
use crate::rsa_keys::rsa_unwrap_der;
use crate::rsa_keys::rsa_wrap_der;
use crate::rsa_keys::unlocks_to;
use crate::rsa_keys::PrivateKey;
use crate::rsa_keys::PublicKey;
use crate::symmetric::aes_gcm_decrypt_raw;
use crate::symmetric::aes_gcm_encrypt_raw;
use crate::symmetric::aes_gcm_open;
use crate::symmetric::os_random_bytes;
use crate::symmetric::AES_KEY_SIZE;
use crate::symmetric::GCM_MAX_PLAINTEXT;
use crate::symmetric::GCM_TAG_SIZE;
use crate::symmetric::NONCE_SIZE;

verus! {

/// The cryptographic toolbox of the envelope subsystem: authenticated
/// symmetric encryption of payloads, RSA wrapping of symmetric keys, and the
/// base64 / PEM codecs for the stored artifacts.
pub struct CryptoUtils;

impl CryptoUtils {
    /// Returns a fresh 32-byte AES-256 key from the OS secure random source.
    pub fn generate_aes_key() -> (r: Vec<u8>)
        ensures
            r@.len() == AES_KEY_SIZE,
    {
        os_random_bytes(AES_KEY_SIZE)
    }

    /// Encrypts `data` under `key` with AES-256-GCM and a fresh 12-byte
    /// nonce, returning the ciphertext-with-tag and the nonce used.
    /// Decrypting the ciphertext under the same key and nonce returns `data`.
    /// Rejects a key that is not exactly 32 bytes; beyond that, fails only
    /// where the cipher refuses the payload, which it does exactly on
    /// plaintexts over 2^36 bytes.
    pub fn encrypt_data(data: &[u8], key: &[u8]) -> (r: Result<(Vec<u8>, Vec<u8>), CryptoError>)
        ensures
            match r {
                Ok((c, n)) => {
                    &&& key@.len() == AES_KEY_SIZE
                    &&& n@.len() == NONCE_SIZE
                    &&& c@.len() == data@.len() + GCM_TAG_SIZE
                    &&& aes_gcm_open(key@, n@, c@) == Some(data@)
                },
                Err(e) => match e {
                    CryptoError::InvalidKeySize => key@.len() != AES_KEY_SIZE,
                    CryptoError::EncryptionFailure => key@.len() == AES_KEY_SIZE
                        && data@.len() > GCM_MAX_PLAINTEXT,
                    _ => false,
                },
            },
    {
        if key.len() != AES_KEY_SIZE {
            return Err(CryptoError::InvalidKeySize);
        }
        let nonce = os_random_bytes(NONCE_SIZE);
        match aes_gcm_encrypt_raw(key, nonce.as_slice(), data) {
            Some(c) => Ok((c, nonce)),
            None => Err(CryptoError::EncryptionFailure),
        }
    }

    /// Decrypts an AES-256-GCM ciphertext-with-tag. Succeeds exactly when
    /// the key is 32 bytes, the nonce is 12 bytes, and the embedded tag
    /// verifies against the triple; a tag failure is reported, never a
    /// garbage plaintext.
    pub fn decrypt_data(ciphertext: &[u8], key: &[u8], nonce_bytes: &[u8]) -> (r: Result<
        Vec<u8>,
        CryptoError,
    >)
        ensures
            match r {
                Ok(p) => {
                    &&& key@.len() == AES_KEY_SIZE
                    &&& nonce_bytes@.len() == NONCE_SIZE
                    &&& aes_gcm_open(key@, nonce_bytes@, ciphertext@) == Some(p@)
                },
                Err(e) => match e {
                    CryptoError::InvalidKeySize => key@.len() != AES_KEY_SIZE,
                    CryptoError::InvalidNonceSize => key@.len() == AES_KEY_SIZE
                        && nonce_bytes@.len() != NONCE_SIZE,
                    CryptoError::AuthenticationFailure => key@.len() == AES_KEY_SIZE
                        && nonce_bytes@.len() == NONCE_SIZE && aes_gcm_open(
                        key@,
                        nonce_bytes@,
                        ciphertext@,
                    ) is None,
                    _ => false,
                },
            },
    {
        if key.len() != AES_KEY_SIZE {
            return Err(CryptoError::InvalidKeySize);
        }
        if nonce_bytes.len() != NONCE_SIZE {
            return Err(CryptoError::InvalidNonceSize);
        }
        match aes_gcm_decrypt_raw(key, nonce_bytes, ciphertext) {
            Some(p) => Ok(p),
            None => Err(CryptoError::AuthenticationFailure),
        }
    }

    /// Generates a fresh 2048-bit RSA key pair: the public half is the one
    /// derived from the private half, both halves are validated keys in
    /// canonical encoding, and the modulus is 256 bytes — so every 32-byte
    /// symmetric key fits under the public half.
    pub fn generate_rsa_key_pair() -> (r: Result<(PrivateKey, PublicKey), CryptoError>)
        ensures
            match r {
                Ok((sk, pk)) => {
                    &&& pk.der@ == rsa_public_of(sk.der@)
                    &&& rsa_public_valid(pk.der@)
                    &&& rsa_private_valid(sk.der@)
                    &&& rsa_private_canon(sk.der@) == sk.der@
                    &&& rsa_k_of(pk.der@) == 256
                },
                Err(e) => e == CryptoError::KeyGenerationFailure,
            },
    {
        match rsa_generate_der() {
            Some((sk_der, pk_der)) => Ok(
                (PrivateKey { der: sk_der }, PublicKey { der: pk_der }),
            ),
            None => Err(CryptoError::KeyGenerationFailure),
        }
    }

    /// Wraps a symmetric key under an RSA public key with PKCS1v15 padding.
    /// Succeeds exactly where the key is well formed and the payload leaves
    /// room for the padding; the wrapped blob is one modulus long and
    /// unlocks, under every private key matching `public_key`, to exactly
    /// `aes_key`.
    pub fn encrypt_aes_key_with_rsa(aes_key: &[u8], public_key: &PublicKey) -> (r: Result<
        Vec<u8>,
        CryptoError,
    >)
        ensures
            match r {
                Ok(c) => {
                    &&& rsa_wrap_fits(public_key.der@, aes_key@.len())
                    &&& c@.len() == rsa_k_of(public_key.der@)
                    &&& unlocks_to(c@, public_key.der@, aes_key@)
                },
                Err(e) => e == CryptoError::WrapFailure && !rsa_wrap_fits(
                    public_key.der@,
                    aes_key@.len(),
                ),
            },
    {
        match rsa_wrap_der(public_key.der.as_slice(), aes_key) {
            Some(c) => Ok(c),
            None => Err(CryptoError::WrapFailure),
        }
    }

    /// Unwraps a symmetric key under an RSA private key with PKCS1v15
    /// padding. Succeeds exactly where the deterministic unwrap of the
    /// ciphertext under this key succeeds, and returns its payload.
    pub fn decrypt_aes_key_with_rsa(encrypted_aes_key: &[u8], private_key: &PrivateKey) -> (r:
        Result<Vec<u8>, CryptoError>)
        ensures
            match r {
                Ok(k) => rsa_unwrap(private_key.der@, encrypted_aes_key@) == Some(k@),
                Err(e) => e == CryptoError::UnwrapFailure && rsa_unwrap(
                    private_key.der@,
                    encrypted_aes_key@,
                ) is None,
            },
    {
        match rsa_unwrap_der(private_key.der.as_slice(), encrypted_aes_key) {
            Some(k) => Ok(k),
            None => Err(CryptoError::UnwrapFailure),
        }
    }

    /// Encodes bytes as standard base64 text (with padding); decoding the
    /// text returns the bytes.
    pub fn encode_base64(data: &[u8]) -> (r: String)
        ensures
            r@ == b64_of(data@),
            b64_parse(r@) == Some(data@),
            r@.len() == ((data@.len() + 2) / 3) * 4,
    {
        b64_encode_raw(data)
    }

    /// Decodes standard base64 text to bytes; fails exactly on text that is
    /// not valid standard base64.
    pub fn decode_base64(data: &str) -> (r: Result<Vec<u8>, CryptoError>)
        ensures
            match r {
                Ok(v) => b64_parse(data@) == Some(v@),
                Err(e) => e == CryptoError::Base64DecodeFailure && b64_parse(data@) is None,
            },
    {
        match b64_decode_raw(data) {
            Some(v) => Ok(v),
            None => Err(CryptoError::Base64DecodeFailure),
        }
    }

    /// Exports an RSA public key to PKCS#1 PEM text; the text parses back to
    /// exactly this key. Fails only where the held bytes do not validate as
    /// a key — never on a key this library generated or imported.
    pub fn export_public_key_to_pem(public_key: &PublicKey) -> (r: Result<String, CryptoError>)
        ensures
            match r {
                Ok(s) => parse_public_pem(s@) == Some(public_key.der@),
                Err(e) => e == CryptoError::KeyEncodeFailure && !rsa_public_valid(public_key.der@),
            },
    {
        match rsa_public_to_pem(public_key.der.as_slice()) {
            Some(s) => Ok(s),
            None => Err(CryptoError::KeyEncodeFailure),
        }
    }

    /// Imports an RSA public key from PKCS#1 PEM text; fails exactly on text
    /// that does not parse as such a key, and returns a validated key.
    pub fn import_public_key_from_pem(pem: &str) -> (r: Result<PublicKey, CryptoError>)
        ensures
            match r {
                Ok(pk) => parse_public_pem(pem@) == Some(pk.der@) && rsa_public_valid(pk.der@),
                Err(e) => e == CryptoError::KeyDecodeFailure && parse_public_pem(pem@) is None,
            },
    {
        match rsa_public_from_pem(pem) {
            Some(d) => Ok(PublicKey { der: d }),
            None => Err(CryptoError::KeyDecodeFailure),
        }
    }

    /// Exports an RSA private key to PKCS#1 PEM text; the text parses back
    /// to the canonical re-encoding of the held bytes, which on every key
    /// this library generated or imported is the key itself. Fails only
    /// where the bytes do not validate as a key.
    pub fn export_private_key_to_pem(private_key: &PrivateKey) -> (r: Result<String, CryptoError>)
        ensures
            match r {
                Ok(s) => parse_private_pem(s@) == Some(rsa_private_canon(private_key.der@)),
                Err(e) => e == CryptoError::KeyEncodeFailure && !rsa_private_valid(
                    private_key.der@,
                ),
            },
    {
        match rsa_private_to_pem(private_key.der.as_slice()) {
            Some(s) => Ok(s),
            None => Err(CryptoError::KeyEncodeFailure),
        }
    }

    /// Imports an RSA private key from PKCS#1 PEM text; fails exactly on
    /// text that does not parse as such a key, and returns a validated key
    /// in canonical encoding.
    pub fn import_private_key_from_pem(pem: &str) -> (r: Result<PrivateKey, CryptoError>)
        ensures
            match r {
                Ok(sk) => {
                    &&& parse_private_pem(pem@) == Some(sk.der@)
                    &&& rsa_private_valid(sk.der@)
                    &&& rsa_private_canon(sk.der@) == sk.der@
                },
                Err(e) => e == CryptoError::KeyDecodeFailure && parse_private_pem(pem@) is None,
            },
    {
        match rsa_private_from_pem(pem) {
            Some(d) => Ok(PrivateKey { der: d }),
            None => Err(CryptoError::KeyDecodeFailure),
        }
    }
}

} // verus!
