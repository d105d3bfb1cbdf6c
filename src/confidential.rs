use vstd::prelude::*;

use aes_gcm::aead::{Aead, KeyInit};
use base64::Engine;

use crate::error::AtomaProxyError;
use crate::json::{json_str_field, str_field};

verus! {

/// Byte length of the salt that binds a symmetric key to one request.
pub const SALT_SIZE: usize = 16;

/// Byte length of an AES-GCM nonce.
pub const NONCE_SIZE: usize = 12;

/// Byte length of an AES-GCM authentication tag.
pub const TAG_SIZE: usize = 16;

/// Byte length of an X25519 key or shared secret.
pub const KEY_SIZE: usize = 32;

/// Longest plaintext that AES-GCM seals.
pub const MAX_PLAINTEXT_LEN: u64 = 68719476736;

/// The X25519 shared secret of a private key and a peer's public key.
pub uninterp spec fn x25519_shared(private_key: Seq<u8>, public_key: Seq<u8>) -> Seq<u8>;

/// The 32-byte HKDF-SHA256 output for a salt and input key material, with no info.
pub uninterp spec fn hkdf_sha256_key(salt: Seq<u8>, ikm: Seq<u8>) -> Seq<u8>;

/// AES-256-GCM sealing of a plaintext, without associated data.
pub uninterp spec fn aes256gcm_seal(key: Seq<u8>, nonce: Seq<u8>, plaintext: Seq<u8>) -> Seq<u8>;

/// AES-256-GCM opening of a ciphertext, without associated data: `None` when
/// the tag does not verify.
pub uninterp spec fn aes256gcm_open(key: Seq<u8>, nonce: Seq<u8>, ciphertext: Seq<u8>) -> Option<
    Seq<u8>,
>;

/// The bytes that standard, padded base64 text encodes; `None` if it is not such text.
pub uninterp spec fn base64_decoded(text: Seq<char>) -> Option<Seq<u8>>;

/// Relies on x25519_dalek's StaticSecret::diffie_hellman, on keys made from the bytes.
#[verifier::external_body]
fn x25519_agree(private_key: &[u8; 32], public_key: &[u8; 32]) -> (r: [u8; 32])
    ensures
        r@ == x25519_shared(private_key@, public_key@),
{
    let secret = x25519_dalek::StaticSecret::from(*private_key);
    secret.diffie_hellman(&x25519_dalek::PublicKey::from(*public_key)).to_bytes()
}

/// Relies on hkdf's Hkdf::<Sha256>::new and expand, which fails only for an
/// output longer than 255 hash lengths.
#[verifier::external_body]
fn hkdf_key(salt: &[u8], ikm: &[u8; 32]) -> (r: Option<[u8; 32]>)
    ensures
        r is Some,
        r is Some ==> r->0@ == hkdf_sha256_key(salt@, ikm@),
{
    let hk = hkdf::Hkdf::<sha2::Sha256>::new(Some(salt), ikm);
    let mut okm = [0u8; 32];
    hk.expand(&[], &mut okm).ok().map(|_| okm)
}

/// Relies on aes_gcm's Aes256Gcm::encrypt: it fails only on a plaintext longer
/// than 2^36 bytes, appends a 16-byte tag, and what it seals opens again.
#[verifier::external_body]
fn aes_gcm_seal(key: &[u8; 32], nonce: &[u8], plaintext: &[u8]) -> (r: Option<Vec<u8>>)
    requires
        nonce@.len() == NONCE_SIZE,
    ensures
        r is Some <==> plaintext@.len() <= MAX_PLAINTEXT_LEN,
        r is Some ==> r->0@ == aes256gcm_seal(key@, nonce@, plaintext@),
        r is Some ==> r->0@.len() == plaintext@.len() + TAG_SIZE,
        r is Some ==> aes256gcm_open(key@, nonce@, r->0@) == Some(plaintext@),
{
    let cipher = aes_gcm::Aes256Gcm::new(aes_gcm::Key::<aes_gcm::Aes256Gcm>::from_slice(key));
    cipher.encrypt(aes_gcm::Nonce::from_slice(nonce), plaintext).ok()
}

/// Relies on aes_gcm's Aes256Gcm::decrypt: it fails on a ciphertext shorter
/// than the tag and whenever the tag does not verify.
#[verifier::external_body]
fn aes_gcm_open(key: &[u8; 32], nonce: &[u8], ciphertext: &[u8]) -> (r: Option<Vec<u8>>)
    requires
        nonce@.len() == NONCE_SIZE,
    ensures
        r is Some <==> aes256gcm_open(key@, nonce@, ciphertext@) is Some,
        r is Some ==> r->0@ == aes256gcm_open(key@, nonce@, ciphertext@)->0,
        ciphertext@.len() < TAG_SIZE ==> r is None,
{
    let cipher = aes_gcm::Aes256Gcm::new(aes_gcm::Key::<aes_gcm::Aes256Gcm>::from_slice(key));
    cipher.decrypt(aes_gcm::Nonce::from_slice(nonce), ciphertext).ok()
}

/// Relies on base64's STANDARD engine decode.
#[verifier::external_body]
fn base64_decode(text: &str) -> (r: Option<Vec<u8>>)
    ensures
        r is Some <==> base64_decoded(text@) is Some,
        r is Some ==> r->0@ == base64_decoded(text@)->0,
{
    base64::engine::general_purpose::STANDARD.decode(text).ok()
}

/// The symmetric key of a request: HKDF over the shared secret, bound by the salt.
pub open spec fn symmetric_key(shared_secret: Seq<u8>, salt: Seq<u8>) -> Seq<u8> {
    hkdf_sha256_key(salt, shared_secret)
}

/// What decryption yields: `None` for a salt or nonce of the wrong length, or
/// a ciphertext whose tag does not verify.
pub open spec fn decryption(
    shared_secret: Seq<u8>,
    ciphertext: Seq<u8>,
    salt: Seq<u8>,
    nonce: Seq<u8>,
) -> Option<Seq<u8>> {
    if salt.len() != SALT_SIZE || nonce.len() != NONCE_SIZE {
        None
    } else {
        aes256gcm_open(symmetric_key(shared_secret, salt), nonce, ciphertext)
    }
}

/// The ciphertext that encryption yields, where it succeeds.
pub open spec fn encryption(
    shared_secret: Seq<u8>,
    plaintext: Seq<u8>,
    salt: Seq<u8>,
    nonce: Seq<u8>,
) -> Seq<u8> {
    aes256gcm_seal(symmetric_key(shared_secret, salt), nonce, plaintext)
}

/// The error of a failed confidential decode.
pub open spec fn decryption_failure(e: AtomaProxyError, endpoint: Seq<char>) -> bool {
    e is DecryptionError && e.endpoint_view() == endpoint
}

fn decryption_error(message: &str, endpoint: &str) -> (e: AtomaProxyError)
    ensures
        decryption_failure(e, endpoint@),
        e.message_view() == message@,
{
    AtomaProxyError::DecryptionError {
        message: String::from_str(message),
        endpoint: String::from_str(endpoint),
    }
}

/// Diffie-Hellman agreement between a local private key and a peer's public key.
/// The same pair of keys always gives the same secret.
pub fn derive_shared_secret(private_key: &[u8; 32], peer_public_key: &[u8; 32]) -> (r: [u8; 32])
    ensures
        r@ == x25519_shared(private_key@, peer_public_key@),
{
    x25519_agree(private_key, peer_public_key)
}

/// Authenticated decryption of a ciphertext under the key that the shared
/// secret and the salt give. Nothing is returned unless the tag verifies.
pub fn decrypt(
    shared_secret: &[u8; 32],
    ciphertext: &[u8],
    salt: &[u8],
    nonce: &[u8],
    endpoint: &str,
) -> (r: Result<Vec<u8>, AtomaProxyError>)
    ensures
        r is Ok <==> decryption(shared_secret@, ciphertext@, salt@, nonce@) is Some,
        r is Ok ==> r->Ok_0@ == decryption(shared_secret@, ciphertext@, salt@, nonce@)->0,
        r is Err ==> decryption_failure(r->Err_0, endpoint@),
{
    if salt.len() != SALT_SIZE {
        return Err(decryption_error("Invalid salt length", endpoint));
    }
    if nonce.len() != NONCE_SIZE {
        return Err(decryption_error("Invalid nonce length", endpoint));
    }
    let key = hkdf_key(salt, shared_secret).unwrap();
    match aes_gcm_open(&key, nonce, ciphertext) {
        Some(plaintext) => Ok(plaintext),
        None => Err(decryption_error("Failed to decrypt ciphertext", endpoint)),
    }
}

/// Authenticated encryption of a plaintext under the key that the shared
/// secret and the salt give. Decrypting the result with the same secret, salt
/// and nonce gives the plaintext back.
pub fn encrypt(
    shared_secret: &[u8; 32],
    plaintext: &[u8],
    salt: &[u8],
    nonce: &[u8],
    endpoint: &str,
) -> (r: Result<Vec<u8>, AtomaProxyError>)
    ensures
        r is Ok <==> (salt@.len() == SALT_SIZE && nonce@.len() == NONCE_SIZE
            && plaintext@.len() <= MAX_PLAINTEXT_LEN),
        r is Ok ==> r->Ok_0@ == encryption(shared_secret@, plaintext@, salt@, nonce@),
        r is Ok ==> r->Ok_0@.len() == plaintext@.len() + TAG_SIZE,
        r is Ok ==> decryption(shared_secret@, r->Ok_0@, salt@, nonce@) == Some(plaintext@),
        r is Err ==> r->Err_0 is InternalError && r->Err_0.endpoint_view() == endpoint@,
{
    if salt.len() != SALT_SIZE || nonce.len() != NONCE_SIZE {
        return Err(
            AtomaProxyError::InternalError {
                message: String::from_str("Invalid salt or nonce length"),
                endpoint: String::from_str(endpoint),
            },
        );
    }
    let key = hkdf_key(salt, shared_secret).unwrap();
    match aes_gcm_seal(&key, nonce, plaintext) {
        Some(ciphertext) => Ok(ciphertext),
        None => Err(
            AtomaProxyError::InternalError {
                message: String::from_str("Plaintext too long to encrypt"),
                endpoint: String::from_str(endpoint),
            },
        ),
    }
}

/// The ciphertext and nonce that a node returns for a confidential request,
/// decoded from base64.
pub struct NodeEncryptionMetadata {
    pub ciphertext: Vec<u8>,
    pub nonce: Vec<u8>,
}

/// The member that holds the ciphertext in a node's confidential envelope.
pub const CIPHERTEXT: &'static str = "ciphertext";

/// The member that holds the nonce in a node's confidential envelope.
pub const NONCE: &'static str = "nonce";

/// What a node's confidential envelope decodes to: the ciphertext and nonce
/// members must be strings of base64 text.
pub open spec fn envelope_metadata(reply: Seq<u8>) -> Option<(Seq<u8>, Seq<u8>)> {
    let c = json_str_field(reply, CIPHERTEXT@);
    let n = json_str_field(reply, NONCE@);
    if c is Some && n is Some && base64_decoded(c->0) is Some && base64_decoded(n->0) is Some {
        Some((base64_decoded(c->0)->0, base64_decoded(n->0)->0))
    } else {
        None
    }
}

/// Reads the ciphertext and nonce out of a node's confidential envelope. A
/// missing member is a malformed node response; text that is not base64 is a
/// failed confidential decode.
pub fn extract_node_encryption_metadata(reply: &[u8], endpoint: &str) -> (r: Result<
    NodeEncryptionMetadata,
    AtomaProxyError,
>)
    ensures
        r is Ok <==> envelope_metadata(reply@) is Some,
        r is Ok ==> (r->Ok_0.ciphertext@, r->Ok_0.nonce@) == envelope_metadata(reply@)->0,
        r is Err ==> r->Err_0.endpoint_view() == endpoint@,
        r is Err ==> (json_str_field(reply@, CIPHERTEXT@) is None || json_str_field(
            reply@,
            NONCE@,
        ) is None) == r->Err_0 is InternalError,
        r is Err && !(r->Err_0 is InternalError) ==> r->Err_0 is DecryptionError,
{
    let (ciphertext_text, nonce_text) = match (str_field(reply, CIPHERTEXT), str_field(reply, NONCE)) {
        (Some(c), Some(n)) => (c, n),
        _ => {
            return Err(
                AtomaProxyError::InternalError {
                    message: String::from_str("Node response lacks its ciphertext or nonce"),
                    endpoint: String::from_str(endpoint),
                },
            );
        },
    };
    let ciphertext = match base64_decode(ciphertext_text.as_str()) {
        Some(c) => c,
        None => {
            return Err(decryption_error("Ciphertext is not base64", endpoint));
        },
    };
    let nonce = match base64_decode(nonce_text.as_str()) {
        Some(n) => n,
        None => {
            return Err(decryption_error("Nonce is not base64", endpoint));
        },
    };
    Ok(NodeEncryptionMetadata { ciphertext, nonce })
}

} // verus!
