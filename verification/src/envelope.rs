use vstd::prelude::*;

use crate::b64::b64_parse;
use crate::crypto::CryptoUtils;
use crate::errors::CryptoError;
use crate::rsa_keys::rsa_public_of;
use crate::rsa_keys::rsa_unwrap;
use crate::rsa_keys::rsa_wrap_fits;
use crate::rsa_keys::unlocks_to;
use crate::rsa_keys::PrivateKey;
use crate::rsa_keys::PublicKey;
use crate::symmetric::aes_gcm_open;
use crate::symmetric::AES_KEY_SIZE;
use crate::symmetric::GCM_MAX_PLAINTEXT;
use crate::symmetric::GCM_TAG_SIZE;
use crate::symmetric::NONCE_SIZE;

verus! {

/// The three artifacts a caller must store together to keep a sealed record
/// recoverable: the authenticated ciphertext for the blob store, and the
/// base64-encoded wrapped key and nonce for the record's metadata.
pub struct SealedRecord {
    /// AES-256-GCM ciphertext of the plaintext, with its embedded tag.
    pub ciphertext: Vec<u8>,
    /// The per-record symmetric key, wrapped under the recipient's RSA
    /// public key and base64-encoded.
    pub wrapped_key: String,
    /// The nonce the ciphertext was produced with, base64-encoded.
    pub nonce: String,
}

/// The record holds the plaintext `p`, sealed for the public key with DER
/// encoding `pk_der`, under the symmetric key `k`: the wrapped-key field
/// decodes to a blob that unlocks to `k` under every matching private key,
/// and the ciphertext decrypts to `p` under `k` and the decoded nonce.
pub open spec fn sealed_with_key(
    ct: Seq<u8>,
    wrapped_b64: Seq<char>,
    nonce_b64: Seq<char>,
    pk_der: Seq<u8>,
    p: Seq<u8>,
    k: Seq<u8>,
) -> bool {
    &&& k.len() == AES_KEY_SIZE
    &&& b64_parse(wrapped_b64) is Some
    &&& unlocks_to(b64_parse(wrapped_b64)->0, pk_der, k)
    &&& b64_parse(nonce_b64) is Some
    &&& (b64_parse(nonce_b64)->0).len() == NONCE_SIZE
    &&& aes_gcm_open(k, b64_parse(nonce_b64)->0, ct) == Some(p)
}

/// The record holds the plaintext `p`, sealed for the public key with DER
/// encoding `pk_der`, under some 32-byte symmetric key.
pub open spec fn sealed_for(
    ct: Seq<u8>,
    wrapped_b64: Seq<char>,
    nonce_b64: Seq<char>,
    pk_der: Seq<u8>,
    p: Seq<u8>,
) -> bool {
    exists|k: Seq<u8>| #[trigger] sealed_with_key(ct, wrapped_b64, nonce_b64, pk_der, p, k)
}

/// What unsealing yields, step by step: decode the two base64 fields, unwrap
/// the symmetric key under the private key, check the sizes, and open the
/// ciphertext; the first failing step names the error.
pub open spec fn unseal_model(
    ct: Seq<u8>,
    wrapped_b64: Seq<char>,
    nonce_b64: Seq<char>,
    sk_der: Seq<u8>,
) -> Result<Seq<u8>, CryptoError> {
    match b64_parse(wrapped_b64) {
        None => Err(CryptoError::Base64DecodeFailure),
        Some(w) => match b64_parse(nonce_b64) {
            None => Err(CryptoError::Base64DecodeFailure),
            Some(n) => match rsa_unwrap(sk_der, w) {
                None => Err(CryptoError::UnwrapFailure),
                Some(k) => if k.len() != AES_KEY_SIZE {
                    Err(CryptoError::InvalidKeySize)
                } else if n.len() != NONCE_SIZE {
                    Err(CryptoError::InvalidNonceSize)
                } else {
                    match aes_gcm_open(k, n, ct) {
                        None => Err(CryptoError::AuthenticationFailure),
                        Some(p) => Ok(p),
                    }
                },
            },
        },
    }
}

/// The stateless orchestrator: seals a plaintext into the three stored
/// artifacts for a recipient, and reverses the transform for the holder of
/// the matching private key.
pub struct RecordEnvelope;

impl RecordEnvelope {
    /// Seals a plaintext for a recipient: generates a fresh symmetric key,
    /// encrypts the payload under it with a fresh nonce, wraps the key under
    /// the recipient's public key, and base64-encodes the wrapped key and
    /// the nonce. Any step's failure aborts the operation with that step's
    /// error, each tied to its cause; no partial record is returned, and
    /// sealing succeeds whenever the plaintext is within the cipher's bound
    /// and the recipient key is well formed with room for a 32-byte payload.
    pub fn seal(plaintext: &[u8], recipient_public: &PublicKey) -> (r: Result<
        SealedRecord,
        CryptoError,
    >)
        ensures
            match r {
                Ok(s) => {
                    &&& s.ciphertext@.len() == plaintext@.len() + GCM_TAG_SIZE
                    &&& sealed_for(
                        s.ciphertext@,
                        s.wrapped_key@,
                        s.nonce@,
                        recipient_public.der@,
                        plaintext@,
                    )
                },
                Err(e) => match e {
                    CryptoError::EncryptionFailure => plaintext@.len() > GCM_MAX_PLAINTEXT,
                    CryptoError::WrapFailure => !rsa_wrap_fits(
                        recipient_public.der@,
                        AES_KEY_SIZE as nat,
                    ),
                    _ => false,
                },
            },
    {
        let key = CryptoUtils::generate_aes_key();
        let (ciphertext, nonce) = match CryptoUtils::encrypt_data(plaintext, key.as_slice()) {
            Ok(cn) => cn,
            Err(e) => return Err(e),
        };
        let wrapped = match CryptoUtils::encrypt_aes_key_with_rsa(
            key.as_slice(),
            recipient_public,
        ) {
            Ok(w) => w,
            Err(e) => return Err(e),
        };
        let wrapped_key = CryptoUtils::encode_base64(wrapped.as_slice());
        let nonce_b64 = CryptoUtils::encode_base64(nonce.as_slice());
        let s = SealedRecord { ciphertext, wrapped_key, nonce: nonce_b64 };
        proof {
            assert(sealed_with_key(
                s.ciphertext@,
                s.wrapped_key@,
                s.nonce@,
                recipient_public.der@,
                plaintext@,
                key@,
            ));
        }
        Ok(s)
    }

    /// Opens a sealed record: decodes the base64 fields, unwraps the
    /// symmetric key under the private key, and decrypts the ciphertext.
    /// Returns exactly what the step-by-step model yields on these inputs —
    /// the plaintext, or the first failing step's error.
    pub fn unseal(
        ciphertext: &[u8],
        wrapped_key_b64: &str,
        nonce_b64: &str,
        recipient_private: &PrivateKey,
    ) -> (r: Result<Vec<u8>, CryptoError>)
        ensures
            match r {
                Ok(p) => unseal_model(
                    ciphertext@,
                    wrapped_key_b64@,
                    nonce_b64@,
                    recipient_private.der@,
                ) == Ok::<Seq<u8>, CryptoError>(p@),
                Err(e) => unseal_model(
                    ciphertext@,
                    wrapped_key_b64@,
                    nonce_b64@,
                    recipient_private.der@,
                ) == Err::<Seq<u8>, CryptoError>(e),
            },
    {
        let wrapped = match CryptoUtils::decode_base64(wrapped_key_b64) {
            Ok(w) => w,
            Err(e) => return Err(e),
        };
        let nonce = match CryptoUtils::decode_base64(nonce_b64) {
            Ok(n) => n,
            Err(e) => return Err(e),
        };
        let key = match CryptoUtils::decrypt_aes_key_with_rsa(
            wrapped.as_slice(),
            recipient_private,
        ) {
            Ok(k) => k,
            Err(e) => return Err(e),
        };
        match CryptoUtils::decrypt_data(ciphertext, key.as_slice(), nonce.as_slice()) {
            Ok(p) => Ok(p),
            Err(e) => Err(e),
        }
    }
}

/// Round trip (law): a record sealed for a public key opens, under every
/// private key that derives that public key, to exactly the sealed
/// plaintext.
pub proof fn lemma_seal_unseal_round_trip(
    ct: Seq<u8>,
    wrapped_b64: Seq<char>,
    nonce_b64: Seq<char>,
    pk_der: Seq<u8>,
    sk_der: Seq<u8>,
    p: Seq<u8>,
)
    requires
        sealed_for(ct, wrapped_b64, nonce_b64, pk_der, p),
        rsa_public_of(sk_der) == pk_der,
    ensures
        unseal_model(ct, wrapped_b64, nonce_b64, sk_der) == Ok::<Seq<u8>, CryptoError>(p),
{
    let k = choose|k: Seq<u8>| #[trigger] sealed_with_key(ct, wrapped_b64, nonce_b64, pk_der, p, k);
    let w = b64_parse(wrapped_b64)->0;
    assert(rsa_unwrap(sk_der, w) == Some(k));
}

/// A law of the open pipeline: where AES-GCM rejects altered bytes under a
/// sealed record's key and nonce, opening the altered record under a
/// matching private key reports an authentication failure, never another
/// plaintext.
pub proof fn lemma_tamper_detection(
    ct: Seq<u8>,
    wrapped_b64: Seq<char>,
    nonce_b64: Seq<char>,
    pk_der: Seq<u8>,
    sk_der: Seq<u8>,
    p: Seq<u8>,
    k: Seq<u8>,
    altered: Seq<u8>,
)
    requires
        sealed_with_key(ct, wrapped_b64, nonce_b64, pk_der, p, k),
        rsa_public_of(sk_der) == pk_der,
        aes_gcm_open(k, b64_parse(nonce_b64)->0, altered) is None,
    ensures
        unseal_model(altered, wrapped_b64, nonce_b64, sk_der) == Err::<Seq<u8>, CryptoError>(
            CryptoError::AuthenticationFailure,
        ),
{
    let w = b64_parse(wrapped_b64)->0;
    assert(rsa_unwrap(sk_der, w) == Some(k));
}

/// A law of the open pipeline: where the RSA unwrap of a sealed record's
/// wrapped key fails under some private key, opening under that key reports
/// an unwrap failure, never a plaintext.
pub proof fn lemma_wrong_key_rejection(
    ct: Seq<u8>,
    wrapped_b64: Seq<char>,
    nonce_b64: Seq<char>,
    pk_der: Seq<u8>,
    p: Seq<u8>,
    other_sk: Seq<u8>,
)
    requires
        sealed_for(ct, wrapped_b64, nonce_b64, pk_der, p),
        rsa_unwrap(other_sk, b64_parse(wrapped_b64)->0) is None,
    ensures
        unseal_model(ct, wrapped_b64, nonce_b64, other_sk) == Err::<Seq<u8>, CryptoError>(
            CryptoError::UnwrapFailure,
        ),
{
    let k = choose|k: Seq<u8>| #[trigger] sealed_with_key(ct, wrapped_b64, nonce_b64, pk_der, p, k);
}

} // verus!
