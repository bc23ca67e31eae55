use vstd::prelude::*;

use aes_gcm::aead::Aead;
use aes_gcm::KeyInit;
use rand::RngCore;

verus! {

/// The byte length of an AES-256 key.
pub const AES_KEY_SIZE: usize = 32;

/// The byte length of an AES-GCM nonce.
pub const NONCE_SIZE: usize = 12;

/// The byte length of the authentication tag that AES-GCM appends to the
/// ciphertext.
pub const GCM_TAG_SIZE: usize = 16;

/// The largest plaintext AES-GCM accepts: 2^36 bytes. Encryption of anything
/// longer is refused by the cipher.
pub const GCM_MAX_PLAINTEXT: u64 = 0x1000000000;

/// What AES-256-GCM authenticated decryption yields for a key, a nonce and a
/// ciphertext-with-tag: the plaintext where the embedded tag verifies,
/// nothing otherwise. Deterministic in its three arguments.
pub uninterp spec fn aes_gcm_open(key: Seq<u8>, nonce: Seq<u8>, ciphertext: Seq<u8>) -> Option<
    Seq<u8>,
>;

/// Relies on rand's `OsRng::fill_bytes`: fills a buffer of the asked length
/// from the operating system's secure random source. Nothing is assumed of
/// the values; the process aborts if the OS source is unavailable.
#[verifier::external_body]
pub(crate) fn os_random_bytes(n: usize) -> (r: Vec<u8>)
    ensures
        r@.len() == n,
{
    let mut buf = vec![0u8; n];
    rand::rngs::OsRng.fill_bytes(&mut buf);
    buf
}

/// Relies on aes_gcm's `Aes256Gcm` (an AEAD): encryption appends the 16-byte
/// tag to a ciphertext of the plaintext's length, decryption under the same
/// key and nonce returns the plaintext, and encryption refuses exactly the
/// plaintexts over 2^36 bytes.
#[verifier::external_body]
pub(crate) fn aes_gcm_encrypt_raw(key: &[u8], nonce: &[u8], data: &[u8]) -> (r: Option<Vec<u8>>)
    requires
        key@.len() == AES_KEY_SIZE,
        nonce@.len() == NONCE_SIZE,
    ensures
        match r {
            Some(c) => {
                &&& c@.len() == data@.len() + GCM_TAG_SIZE
                &&& aes_gcm_open(key@, nonce@, c@) == Some(data@)
            },
            None => data@.len() > GCM_MAX_PLAINTEXT,
        },
{
    let cipher = match aes_gcm::Aes256Gcm::new_from_slice(key) {
        Ok(c) => c,
        Err(_) => return None,
    };
    cipher.encrypt(aes_gcm::Nonce::from_slice(nonce), data).ok()
}

/// Relies on aes_gcm's `Aes256Gcm` (an AEAD): decryption is a function of
/// key, nonce and ciphertext alone; it returns the plaintext where the
/// embedded tag verifies and fails otherwise.
#[verifier::external_body]
pub(crate) fn aes_gcm_decrypt_raw(key: &[u8], nonce: &[u8], ciphertext: &[u8]) -> (r: Option<
    Vec<u8>,
>)
    requires
        key@.len() == AES_KEY_SIZE,
        nonce@.len() == NONCE_SIZE,
    ensures
        match r {
            Some(p) => aes_gcm_open(key@, nonce@, ciphertext@) == Some(p@),
            None => aes_gcm_open(key@, nonce@, ciphertext@) is None,
        },
{
    let cipher = match aes_gcm::Aes256Gcm::new_from_slice(key) {
        Ok(c) => c,
        Err(_) => return None,
    };
    cipher.decrypt(aes_gcm::Nonce::from_slice(nonce), ciphertext).ok()
}

} // verus!
