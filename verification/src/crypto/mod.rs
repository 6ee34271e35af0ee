//! Authenticated encryption of JSON payloads under a shared secret.
//!
//! The cipher is ChaCha20-Poly1305 keyed with the raw 32 bytes of the shared
//! secret; the nonce is 12 bytes chosen by the caller and must never be used
//! twice under one shared secret. The nonce is not part of the ciphertext.

use vstd::prelude::*;

use chacha20poly1305::aead::{Aead, NewAead};

pub use x25519_dalek::{PublicKey, SharedSecret, StaticSecret};

pub mod json;
pub mod keys;

verus! {

/// A nonce: 12 bytes that the caller picks anew for every message.
pub type Nonce = [u8; 12];

/// Size in bytes of a key, be it secret, public or shared.
pub const KEY_LEN: usize = 32;

/// Size in bytes of the authentication tag that ends every ciphertext.
pub const TAG_LEN: usize = 16;

/// Size of one block of the key stream.
pub const BLOCK_LEN: usize = 64;

/// Number of key stream blocks after which the cipher refuses a message.
pub const MAX_BLOCKS: usize = 4294967295;

/// `x25519_dalek::SharedSecret`: what both sides derive from their own
/// secret key and the other's public key. It is carried as it is; only its
/// bytes are read.
#[verifier::external_type_specification]
#[verifier::external_body]
pub struct ExSharedSecret(x25519_dalek::SharedSecret);

/// `serde_json::Value`: any JSON value. It is carried as it is.
#[verifier::external_type_specification]
#[verifier::external_body]
pub struct ExValue(serde_json::Value);

/// `serde_json::Error`: why a text was not read or a value not written.
#[verifier::external_type_specification]
#[verifier::external_body]
pub struct ExJsonError(serde_json::Error);

/// `aead::Error`: the cipher's one error, which says nothing of its cause.
#[verifier::external_type_specification]
#[verifier::external_body]
pub struct ExAeadError(chacha20poly1305::aead::Error);

/// The 32 bytes of a shared secret, as `SharedSecret::as_bytes` gives them.
pub uninterp spec fn shared_bytes(secret: x25519_dalek::SharedSecret) -> Seq<u8>;

/// The JSON text that `serde_json::to_vec` writes for a value, `None` where
/// it reports an error.
pub uninterp spec fn json_encoding(value: serde_json::Value) -> Option<Seq<u8>>;

/// The value that `serde_json::from_slice` reads from a text, `None` where it
/// reports an error.
pub uninterp spec fn json_decoding(text: Seq<u8>) -> Option<serde_json::Value>;

/// The ciphertext, tag included, that ChaCha20-Poly1305 gives for a plaintext
/// under a key and a nonce, `None` where the cipher refuses the plaintext.
pub uninterp spec fn sealed(key: Seq<u8>, nonce: Seq<u8>, plaintext: Seq<u8>) -> Option<Seq<u8>>;

/// The plaintext that ChaCha20-Poly1305 gives back for a ciphertext under a
/// key and a nonce, `None` where the ciphertext does not authenticate.
pub uninterp spec fn opened(key: Seq<u8>, nonce: Seq<u8>, ciphertext: Seq<u8>) -> Option<Seq<u8>>;

/// Why a payload could not be encrypted.
#[derive(Debug, Clone, Copy, PartialEq, Eq, Structural)]
pub enum EncryptionError {
    /// The value has no JSON text.
    Encoding,
    /// The cipher refused the JSON text: it is too long for one nonce.
    Cipher,
}

/// Why a ciphertext could not be turned back into a payload.
#[derive(Debug, Clone, Copy, PartialEq, Eq, Structural)]
pub enum DecryptionError {
    /// The tag does not match: wrong key, wrong nonce or altered ciphertext.
    AuthenticationFailed,
    /// The ciphertext is authentic but its plaintext is not JSON.
    MalformedPayload,
}

/// Whether the cipher takes a plaintext of this length.
pub open spec fn fits_cipher(len: nat) -> bool {
    len / (BLOCK_LEN as nat) < MAX_BLOCKS as nat
}

/// What encrypting a value under a key and a nonce gives.
pub open spec fn ciphertext_of(key: Seq<u8>, nonce: Seq<u8>, value: serde_json::Value) -> Result<
    Seq<u8>,
    EncryptionError,
> {
    match json_encoding(value) {
        None => Err(EncryptionError::Encoding),
        Some(text) => match sealed(key, nonce, text) {
            None => Err(EncryptionError::Cipher),
            Some(ciphertext) => Ok(ciphertext),
        },
    }
}

/// Whether the JSON text of a value reads back as that value.
pub open spec fn reads_back(value: serde_json::Value) -> bool {
    json_encoding(value) matches Some(text) && json_decoding(text) == Some(value)
}

/// What reading an opened plaintext as JSON gives.
pub open spec fn payload_of_text(text: Seq<u8>) -> Result<serde_json::Value, DecryptionError> {
    match json_decoding(text) {
        None => Err(DecryptionError::MalformedPayload),
        Some(value) => Ok(value),
    }
}

/// What is made of the outcome of opening a ciphertext.
pub open spec fn payload_of_opened(plaintext: Option<Seq<u8>>) -> Result<
    serde_json::Value,
    DecryptionError,
> {
    match plaintext {
        None => Err(DecryptionError::AuthenticationFailed),
        Some(text) => payload_of_text(text),
    }
}

/// What decrypting a ciphertext under a key and a nonce gives.
pub open spec fn payload_of(key: Seq<u8>, nonce: Seq<u8>, ciphertext: Seq<u8>) -> Result<
    serde_json::Value,
    DecryptionError,
> {
    payload_of_opened(opened(key, nonce, ciphertext))
}

/// Calls `SharedSecret::as_bytes` and copies the secret's 32 bytes out.
#[verifier::external_body]
fn shared_secret_bytes(secret: &x25519_dalek::SharedSecret) -> (bytes: [u8; 32])
    ensures
        bytes@ == shared_bytes(*secret),
{
    *secret.as_bytes()
}

/// The bytes of a key as an array, where there are exactly 32 of them.
pub fn key_array(bytes: &[u8]) -> (key: Option<[u8; 32]>)
    ensures
        key is Some <==> bytes@.len() == KEY_LEN,
        key matches Some(array) ==> array@ == bytes@,
{
    if bytes.len() != KEY_LEN {
        return None;
    }
    let mut array: [u8; 32] = [0u8; 32];
    let mut i: usize = 0;
    while i < KEY_LEN
        invariant
            i <= KEY_LEN,
            bytes@.len() == KEY_LEN,
            forall|j: int| 0 <= j < i ==> array@[j] == bytes@[j],
        decreases KEY_LEN - i,
    {
        array[i] = bytes[i];
        i += 1;
    }
    assert(array@ =~= bytes@);
    Some(array)
}

/// Calls `serde_json::to_vec` on a JSON value. The text depends on the value
/// alone, so it is named; nothing is claimed of when the call succeeds.
#[verifier::external_body]
fn json_to_vec(value: &serde_json::Value) -> (text: Result<Vec<u8>, serde_json::Error>)
    ensures
        text is Ok <==> json_encoding(*value) is Some,
        text matches Ok(t) ==> json_encoding(*value) == Some(t@),
{
    serde_json::to_vec(value)
}

/// Calls `serde_json::from_slice` for a JSON value. The value depends on the
/// text alone, so it is named; nothing is claimed of which texts are JSON.
#[verifier::external_body]
fn json_from_slice(text: &[u8]) -> (value: Result<serde_json::Value, serde_json::Error>)
    ensures
        value is Ok <==> json_decoding(text@) is Some,
        value matches Ok(v) ==> json_decoding(text@) == Some(v),
{
    serde_json::from_slice(text)
}

/// Calls `Aead::encrypt` of `ChaCha20Poly1305`, keyed by `NewAead::new`, with
/// no associated data. The cipher refuses a plaintext exactly when it spans
/// `MAX_BLOCKS` blocks or more; otherwise the ciphertext is as long as the
/// plaintext plus the tag.
#[verifier::external_body]
#[allow(deprecated)]
fn seal(key: &[u8; 32], nonce: &[u8; 12], plaintext: &[u8]) -> (ciphertext: Result<
    Vec<u8>,
    chacha20poly1305::aead::Error,
>)
    ensures
        ciphertext is Ok <==> fits_cipher(plaintext@.len()),
        ciphertext is Ok <==> sealed(key@, nonce@, plaintext@) is Some,
        ciphertext matches Ok(c) ==> sealed(key@, nonce@, plaintext@) == Some(c@),
        ciphertext matches Ok(c) ==> c@.len() == plaintext@.len() + TAG_LEN,
{
    let cipher = chacha20poly1305::ChaCha20Poly1305::new(chacha20poly1305::Key::from_slice(key));
    cipher.encrypt(chacha20poly1305::Nonce::from_slice(nonce), plaintext)
}

/// Calls `Aead::decrypt` of `ChaCha20Poly1305`, keyed by `NewAead::new`, with
/// no associated data. A ciphertext shorter than the tag is refused, a
/// plaintext is shorter than its ciphertext by the tag, and a ciphertext that
/// `Aead::encrypt` made under the same key and nonce gives its plaintext back.
#[verifier::external_body]
#[allow(deprecated)]
fn open(key: &[u8; 32], nonce: &[u8; 12], ciphertext: &[u8]) -> (plaintext: Result<
    Vec<u8>,
    chacha20poly1305::aead::Error,
>)
    ensures
        plaintext is Ok <==> opened(key@, nonce@, ciphertext@) is Some,
        plaintext matches Ok(p) ==> opened(key@, nonce@, ciphertext@) == Some(p@),
        plaintext matches Ok(p) ==> p@.len() + TAG_LEN == ciphertext@.len(),
        plaintext matches Ok(p) ==> forall|text: Seq<u8>| #[trigger]
            sealed(key@, nonce@, text) == Some(ciphertext@) ==> text == p@,
        plaintext is Err ==> forall|text: Seq<u8>| #[trigger]
            sealed(key@, nonce@, text) != Some(ciphertext@),
{
    let cipher = chacha20poly1305::ChaCha20Poly1305::new(chacha20poly1305::Key::from_slice(key));
    cipher.decrypt(chacha20poly1305::Nonce::from_slice(nonce), ciphertext)
}

/// Encrypts a plaintext under a shared secret and a nonce.
///
/// The ciphertext is the encrypted plaintext followed by its tag. The cipher
/// is keyed with the raw bytes of the shared secret. No pair of shared secret
/// and nonce may be used for two different plaintexts.
pub fn encrypt_bytes(
    shared_secret_key: &x25519_dalek::SharedSecret,
    nonce: &Nonce,
    plaintext: &[u8],
) -> (cipher_bytes: Result<Vec<u8>, EncryptionError>)
    ensures
        cipher_bytes is Ok <==> fits_cipher(plaintext@.len()),
        match cipher_bytes {
            Ok(bytes) => sealed(shared_bytes(*shared_secret_key), nonce@, plaintext@) == Some(
                bytes@,
            ) && bytes@.len() == plaintext@.len() + TAG_LEN,
            Err(e) => e == EncryptionError::Cipher && sealed(
                shared_bytes(*shared_secret_key),
                nonce@,
                plaintext@,
            ) is None,
        },
{
    let key = shared_secret_bytes(shared_secret_key);
    match seal(&key, nonce, plaintext) {
        Err(_) => Err(EncryptionError::Cipher),
        Ok(bytes) => Ok(bytes),
    }
}

/// Authenticates and decrypts a ciphertext under a shared secret and a nonce.
///
/// A ciphertext that `encrypt_bytes` made under the same shared secret and
/// nonce gives its plaintext back. One that does not authenticate is refused
/// without a word on whether the key, the nonce or the bytes are at fault.
pub fn decrypt_bytes(
    shared_secret_key: &x25519_dalek::SharedSecret,
    nonce: &Nonce,
    cipher_bytes: &[u8],
) -> (plaintext: Result<Vec<u8>, DecryptionError>)
    ensures
        match opened(shared_bytes(*shared_secret_key), nonce@, cipher_bytes@) {
            Some(text) => plaintext matches Ok(bytes) && bytes@ == text && text.len() + TAG_LEN
                == cipher_bytes@.len(),
            None => plaintext == Err::<Vec<u8>, DecryptionError>(
                DecryptionError::AuthenticationFailed,
            ),
        },
        cipher_bytes@.len() < TAG_LEN ==> plaintext is Err,
        forall|text: Seq<u8>| #[trigger]
            sealed(shared_bytes(*shared_secret_key), nonce@, text) == Some(cipher_bytes@) ==> (
            plaintext matches Ok(bytes) && bytes@ == text),
{
    let key = shared_secret_bytes(shared_secret_key);
    match open(&key, nonce, cipher_bytes) {
        Err(_) => Err(DecryptionError::AuthenticationFailed),
        Ok(bytes) => Ok(bytes),
    }
}

/// Decides what the outcome of reading a plaintext as JSON leads to, for a
/// payload of any type.
pub fn payload_from_parsed<T>(parsed: Result<T, serde_json::Error>) -> (payload: Result<
    T,
    DecryptionError,
>)
    ensures
        payload == match parsed {
            Ok(value) => Ok::<T, DecryptionError>(value),
            Err(_) => Err::<T, DecryptionError>(DecryptionError::MalformedPayload),
        },
{
    match parsed {
        Ok(value) => Ok(value),
        Err(_) => Err(DecryptionError::MalformedPayload),
    }
}

/// Decides what the outcome of writing a payload as JSON leads to: the text
/// is encrypted where there is one.
pub fn encrypt_encoded(
    shared_secret_key: &x25519_dalek::SharedSecret,
    nonce: &Nonce,
    encoded: Result<Vec<u8>, serde_json::Error>,
) -> (cipher_bytes: Result<Vec<u8>, EncryptionError>)
    ensures
        cipher_bytes is Ok <==> (encoded matches Ok(text) && fits_cipher(text@.len())),
        match encoded {
            Err(_) => cipher_bytes == Err::<Vec<u8>, EncryptionError>(EncryptionError::Encoding),
            Ok(text) => match sealed(shared_bytes(*shared_secret_key), nonce@, text@) {
                Some(c) => cipher_bytes matches Ok(bytes) && bytes@ == c && c.len() == text@.len()
                    + TAG_LEN,
                None => cipher_bytes == Err::<Vec<u8>, EncryptionError>(EncryptionError::Cipher),
            },
        },
{
    match encoded {
        Err(_) => Err(EncryptionError::Encoding),
        Ok(text) => encrypt_bytes(shared_secret_key, nonce, text.as_slice()),
    }
}

/// Reads an authentic plaintext as a JSON payload.
pub fn decode_plaintext(text: &[u8]) -> (payload: Result<serde_json::Value, DecryptionError>)
    ensures
        payload == payload_of_text(text@),
{
    payload_from_parsed(json_from_slice(text))
}

/// Encrypts the JSON text of a value under a shared secret and a nonce.
///
/// The ciphertext is the encrypted text followed by its tag. No pair of
/// shared secret and nonce may be used for two different payloads.
pub fn encrypt(
    shared_secret_key: &x25519_dalek::SharedSecret,
    nonce: &Nonce,
    obj: &serde_json::Value,
) -> (cipher_bytes: Result<Vec<u8>, EncryptionError>)
    ensures
        match ciphertext_of(shared_bytes(*shared_secret_key), nonce@, *obj) {
            Ok(c) => cipher_bytes matches Ok(bytes) && bytes@ == c,
            Err(e) => cipher_bytes == Err::<Vec<u8>, EncryptionError>(e),
        },
        cipher_bytes is Ok <==> (json_encoding(*obj) matches Some(text) && fits_cipher(
            text.len(),
        )),
        cipher_bytes matches Ok(bytes) ==> bytes@.len() == json_encoding(*obj).unwrap().len()
            + TAG_LEN,
{
    encrypt_encoded(shared_secret_key, nonce, json_to_vec(obj))
}

/// Authenticates and decrypts a ciphertext, then reads its plaintext as JSON.
///
/// A ciphertext that `encrypt` made of a value under the same shared secret
/// and nonce gives what reading the value's own JSON text gives: the value
/// itself wherever its text reads back as it.
pub fn decrypt(
    shared_secret_key: &x25519_dalek::SharedSecret,
    nonce: &Nonce,
    cipher_bytes: &[u8],
) -> (obj: Result<serde_json::Value, DecryptionError>)
    ensures
        obj == payload_of(shared_bytes(*shared_secret_key), nonce@, cipher_bytes@),
        cipher_bytes@.len() < TAG_LEN ==> obj == Err::<serde_json::Value, DecryptionError>(
            DecryptionError::AuthenticationFailed,
        ),
        forall|value: serde_json::Value| #[trigger]
            ciphertext_of(shared_bytes(*shared_secret_key), nonce@, value) == Ok::<
                Seq<u8>,
                EncryptionError,
            >(cipher_bytes@) ==> {
                &&& obj == payload_of_text(json_encoding(value).unwrap())
                &&& reads_back(value) ==> obj == Ok::<serde_json::Value, DecryptionError>(value)
            },
{
    match decrypt_bytes(shared_secret_key, nonce, cipher_bytes) {
        Err(e) => Err(e),
        Ok(text) => decode_plaintext(text.as_slice()),
    }
}

} // verus!
