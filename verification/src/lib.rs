//! Envelope encryption for sensitive records: authenticated symmetric
//! encryption of the payload under a fresh per-record key, wrapping of that
//! key under a recipient's RSA public key, and the base64 / PEM codecs for
//! the stored artifacts.

pub mod b64;
pub mod crypto;
pub mod envelope;
pub mod errors;
pub mod rsa_keys;
pub mod symmetric;
