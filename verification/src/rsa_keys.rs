use vstd::prelude::*;

use rsa::pkcs1::DecodeRsaPrivateKey;
use rsa::pkcs1::DecodeRsaPublicKey;
use rsa::pkcs1::EncodeRsaPrivateKey;
use rsa::pkcs1::EncodeRsaPublicKey;

verus! {

/// An RSA public key, held as its PKCS#1 DER encoding. DER is a canonical
/// encoding, so two values with equal bytes are the same key.
#[derive(Debug, Clone)]
pub struct PublicKey {
    /// The PKCS#1 DER encoding of the key.
    pub der: Vec<u8>,
}

/// An RSA private key, held as its PKCS#1 DER encoding.
#[derive(Debug, Clone)]
pub struct PrivateKey {
    /// The PKCS#1 DER encoding of the key.
    pub der: Vec<u8>,
}

/// The PKCS#1 DER encoding of the public key derived from the private key
/// whose PKCS#1 DER encoding is given.
pub uninterp spec fn rsa_public_of(private_der: Seq<u8>) -> Seq<u8>;

/// What RSA-PKCS1v15 decryption under the private key with the given DER
/// encoding yields on a ciphertext: the payload, or nothing where the key
/// does not parse or the padding does not verify. Deterministic in both
/// arguments.
pub uninterp spec fn rsa_unwrap(private_der: Seq<u8>, ciphertext: Seq<u8>) -> Option<Seq<u8>>;

/// What parsing PEM text as a PKCS#1 RSA public key yields, as the key's DER
/// encoding: nothing on malformed text.
pub uninterp spec fn parse_public_pem(text: Seq<char>) -> Option<Seq<u8>>;

/// What parsing PEM text as a PKCS#1 RSA private key yields, as the key's
/// DER encoding: nothing on malformed text.
pub uninterp spec fn parse_private_pem(text: Seq<char>) -> Option<Seq<u8>>;

/// Whether the bytes parse and validate as a PKCS#1 RSA public key (rsa's
/// size and exponent checks included).
pub uninterp spec fn rsa_public_valid(public_der: Seq<u8>) -> bool;

/// Whether the bytes parse and validate as a PKCS#1 RSA private key.
pub uninterp spec fn rsa_private_valid(private_der: Seq<u8>) -> bool;

/// The byte length of the modulus of the public key the DER encodes: the
/// length of every PKCS1v15 ciphertext made under that key (256 for a
/// 2048-bit key).
pub uninterp spec fn rsa_k_of(public_der: Seq<u8>) -> nat;

/// The canonical re-encoding of a private key's DER: what parsing the bytes
/// and encoding the key again yields. PKCS#1 private DER carries CRT fields
/// that the parser ignores and the encoder recomputes from d, p and q, so a
/// doctored-but-parsing input need not be its own canonical form; everything
/// this library generates or imports is.
pub uninterp spec fn rsa_private_canon(private_der: Seq<u8>) -> Seq<u8>;

/// A payload of length `len` fits under the public key with DER encoding
/// `pk_der`: the key is well formed and the payload leaves room for the
/// eleven bytes of PKCS1v15 padding. Exactly the condition under which the
/// wrap succeeds.
pub open spec fn rsa_wrap_fits(pk_der: Seq<u8>, len: nat) -> bool {
    rsa_public_valid(pk_der) && len + 11 <= rsa_k_of(pk_der)
}

/// The wrapped blob `w` unlocks, under every private key that derives the
/// public key with DER encoding `pk_der`, to the payload `k`.
pub open spec fn unlocks_to(w: Seq<u8>, pk_der: Seq<u8>, k: Seq<u8>) -> bool {
    forall|sk: Seq<u8>| rsa_public_of(sk) == pk_der ==> #[trigger] rsa_unwrap(sk, w) == Some(k)
}

/// Relies on rsa's `RsaPrivateKey::new` (2048 bits, OS randomness),
/// `to_public_key`, and the PKCS#1 DER encoders: the public DER handed back
/// encodes the public key derived from the private DER handed back; both
/// halves are validated keys in canonical encoding, and the modulus is
/// exactly 256 bytes.
#[verifier::external_body]
pub(crate) fn rsa_generate_der() -> (r: Option<(Vec<u8>, Vec<u8>)>)
    ensures
        match r {
            Some((sk, pk)) => {
                &&& pk@ == rsa_public_of(sk@)
                &&& rsa_public_valid(pk@)
                &&& rsa_private_valid(sk@)
                &&& rsa_private_canon(sk@) == sk@
                &&& rsa_k_of(pk@) == 256
            },
            None => true,
        },
{
    let sk = rsa::RsaPrivateKey::new(&mut rand::rngs::OsRng, 2048).ok()?;
    let sk_der = sk.to_pkcs1_der().ok()?.as_bytes().to_vec();
    let pk_der = sk.to_public_key().to_pkcs1_der().ok()?.as_bytes().to_vec();
    Some((sk_der, pk_der))
}

/// Relies on rsa's `RsaPublicKey::from_pkcs1_der` and `encrypt` with
/// `Pkcs1v15Encrypt` padding under OS randomness: the wrap succeeds exactly
/// where the key validates and the payload leaves room for the padding; the
/// ciphertext is one modulus long and decrypts, under every private key that
/// derives that public key, to the payload.
#[verifier::external_body]
pub(crate) fn rsa_wrap_der(public_der: &[u8], payload: &[u8]) -> (r: Option<Vec<u8>>)
    ensures
        match r {
            Some(c) => {
                &&& rsa_wrap_fits(public_der@, payload@.len())
                &&& c@.len() == rsa_k_of(public_der@)
                &&& unlocks_to(c@, public_der@, payload@)
            },
            None => !rsa_wrap_fits(public_der@, payload@.len()),
        },
{
    let pk = rsa::RsaPublicKey::from_pkcs1_der(public_der).ok()?;
    pk.encrypt(&mut rand::rngs::OsRng, rsa::Pkcs1v15Encrypt, payload).ok()
}

/// Relies on rsa's `RsaPrivateKey::from_pkcs1_der` and `decrypt` with
/// `Pkcs1v15Encrypt` padding: the result is a function of the private key
/// bytes and the ciphertext alone (the unblinded decrypt is deterministic).
#[verifier::external_body]
pub(crate) fn rsa_unwrap_der(private_der: &[u8], ciphertext: &[u8]) -> (r: Option<Vec<u8>>)
    ensures
        match r {
            Some(p) => rsa_unwrap(private_der@, ciphertext@) == Some(p@),
            None => rsa_unwrap(private_der@, ciphertext@) is None,
        },
{
    let sk = rsa::RsaPrivateKey::from_pkcs1_der(private_der).ok()?;
    sk.decrypt(rsa::Pkcs1v15Encrypt, ciphertext).ok()
}

/// Relies on rsa's `RsaPublicKey::{from_pkcs1_der, to_pkcs1_pem}` and
/// `from_pkcs1_pem`: the export fails only where the DER does not validate
/// as a key; the emitted PEM text parses back to the same key, and a public
/// PKCS#1 DER has no redundant fields, so the text parses to the DER bytes
/// given here.
#[verifier::external_body]
pub(crate) fn rsa_public_to_pem(public_der: &[u8]) -> (r: Option<String>)
    ensures
        match r {
            Some(s) => parse_public_pem(s@) == Some(public_der@),
            None => !rsa_public_valid(public_der@),
        },
{
    let pk = rsa::RsaPublicKey::from_pkcs1_der(public_der).ok()?;
    pk.to_pkcs1_pem(rsa::pkcs8::LineEnding::LF).ok()
}

/// Relies on rsa's `RsaPublicKey::from_pkcs1_pem` and `to_pkcs1_der`:
/// parsing is a function of the text alone, fails exactly on text that is
/// not a PEM-encoded PKCS#1 RSA public key, and hands back a validated key.
#[verifier::external_body]
pub(crate) fn rsa_public_from_pem(pem: &str) -> (r: Option<Vec<u8>>)
    ensures
        match r {
            Some(d) => parse_public_pem(pem@) == Some(d@) && rsa_public_valid(d@),
            None => parse_public_pem(pem@) is None,
        },
{
    let pk = rsa::RsaPublicKey::from_pkcs1_pem(pem).ok()?;
    Some(pk.to_pkcs1_der().ok()?.as_bytes().to_vec())
}

/// Relies on rsa's `RsaPrivateKey::{from_pkcs1_der, to_pkcs1_pem}` and
/// `from_pkcs1_pem`: the export fails only where the DER does not validate
/// as a key; the emitted PEM text parses back to the canonical re-encoding
/// of the given bytes (the parser ignores the CRT fields and the encoder
/// recomputes them, so only canonical inputs come back byte-equal).
#[verifier::external_body]
pub(crate) fn rsa_private_to_pem(private_der: &[u8]) -> (r: Option<String>)
    ensures
        match r {
            Some(s) => parse_private_pem(s@) == Some(rsa_private_canon(private_der@)),
            None => !rsa_private_valid(private_der@),
        },
{
    let sk = rsa::RsaPrivateKey::from_pkcs1_der(private_der).ok()?;
    Some(sk.to_pkcs1_pem(rsa::pkcs8::LineEnding::LF).ok()?.to_string())
}

/// Relies on rsa's `RsaPrivateKey::from_pkcs1_pem` and `to_pkcs1_der`:
/// parsing is a function of the text alone, fails exactly on text that is
/// not a PEM-encoded PKCS#1 RSA private key, and hands back a validated key
/// in canonical encoding.
#[verifier::external_body]
pub(crate) fn rsa_private_from_pem(pem: &str) -> (r: Option<Vec<u8>>)
    ensures
        match r {
            Some(d) => {
                &&& parse_private_pem(pem@) == Some(d@)
                &&& rsa_private_valid(d@)
                &&& rsa_private_canon(d@) == d@
            },
            None => parse_private_pem(pem@) is None,
        },
{
    let sk = rsa::RsaPrivateKey::from_pkcs1_pem(pem).ok()?;
    Some(sk.to_pkcs1_der().ok()?.as_bytes().to_vec())
}

/// PEM round trip (law): importing the PEM export of a public key returns
/// the key unchanged. Export guarantees that its text parses to the exported
/// key's DER bytes; import returns exactly what its text parses to; parsing
/// is a function, so the imported key is the exported one.
pub proof fn lemma_public_pem_round_trip(der: Seq<u8>, pem: Seq<char>, imported: Seq<u8>)
    requires
        parse_public_pem(pem) == Some(der),
        parse_public_pem(pem) == Some(imported),
    ensures
        imported == der,
{
}

/// PEM round trip (law): importing the PEM export of a canonically encoded
/// private key — every key this library generates or imports is one —
/// returns the key unchanged. Export guarantees that its text parses to the
/// canonical re-encoding of the exported bytes; on a canonical key that is
/// the key itself, and import returns exactly what its text parses to.
pub proof fn lemma_private_pem_round_trip(der: Seq<u8>, pem: Seq<char>, imported: Seq<u8>)
    requires
        rsa_private_canon(der) == der,
        parse_private_pem(pem) == Some(rsa_private_canon(der)),
        parse_private_pem(pem) == Some(imported),
    ensures
        imported == der,
{
}

} // verus!
