//! Rules for keeping the long-term secret key in a file.
//!
//! A key file holds the 32 raw bytes of the key and nothing else. Reading
//! and writing the file is the caller's part; what is made of the outcome is
//! decided here.
//!
//! Setting a key up for the first time is not safe when two processes do it
//! on one path at once: both may find no file, both generate a key, and the
//! later write replaces the earlier one. Callers that can race must
//! serialise the setup themselves.

use vstd::prelude::*;

use crate::crypto::key_array;

verus! {

/// `x25519_dalek::StaticSecret`: the long-term secret key. It is carried as
/// it is; only its bytes are read.
#[verifier::external_type_specification]
#[verifier::external_body]
pub struct ExStaticSecret(x25519_dalek::StaticSecret);

/// The 32 bytes of a secret key, as `StaticSecret::to_bytes` gives them.
pub uninterp spec fn secret_bytes(secret: x25519_dalek::StaticSecret) -> Seq<u8>;

/// Why a secret key could not be loaded or saved.
#[derive(Debug, Clone, Copy, PartialEq, Eq, Structural)]
pub enum KeyFileError {
    /// There is no regular file at the path.
    Missing,
    /// The file does not hold exactly 32 bytes.
    WrongSize,
    /// The file could not be read or written.
    Io,
}

/// What an attempt to read the key file gave.
#[derive(Debug, Clone, PartialEq, Eq)]
pub enum KeyFileRead {
    /// There is no regular file at the path.
    NotAFile,
    /// The file is there but reading it failed.
    Failed,
    /// Everything the file holds.
    Contents(Vec<u8>),
}

/// How to obtain the key, given whether its file exists.
pub enum KeyPlan {
    /// The file exists: read it and take the key from what it holds.
    Load,
    /// The file does not exist: write `contents` to it and then keep `key`.
    Store { key: x25519_dalek::StaticSecret, contents: Vec<u8> },
}

/// The bytes of a scalar after X25519 clamping: the three lowest bits and the
/// highest bit cleared, the second highest bit set.
pub open spec fn clamped(bytes: Seq<u8>) -> Seq<u8>
    recommends
        bytes.len() == 32,
{
    bytes.update(0, bytes[0] & 248u8).update(31, (bytes[31] & 127u8) | 64u8)
}

/// Whether these are the bytes of a secret key: 32 of them, clamped.
pub open spec fn is_key_bytes(bytes: Seq<u8>) -> bool {
    bytes.len() == 32 && clamped(bytes) == bytes
}

/// The bytes of the key that a file with these contents holds.
pub open spec fn loaded_bytes(contents: Seq<u8>) -> Result<Seq<u8>, KeyFileError> {
    if contents.len() == 32 {
        Ok(clamped(contents))
    } else {
        Err(KeyFileError::WrongSize)
    }
}

/// The bytes of the key that a read of the key file leads to.
pub open spec fn read_bytes(read: KeyFileRead) -> Result<Seq<u8>, KeyFileError> {
    match read {
        KeyFileRead::NotAFile => Err(KeyFileError::Missing),
        KeyFileRead::Failed => Err(KeyFileError::Io),
        KeyFileRead::Contents(contents) => loaded_bytes(contents@),
    }
}

/// Whether `loaded` holds a key exactly where `expected` holds its bytes, and
/// otherwise the same error.
pub open spec fn is_key_of(
    loaded: Result<x25519_dalek::StaticSecret, KeyFileError>,
    expected: Result<Seq<u8>, KeyFileError>,
) -> bool {
    match expected {
        Ok(bytes) => loaded matches Ok(key) && secret_bytes(key) == bytes,
        Err(e) => loaded matches Err(f) && f == e,
    }
}

/// Calls `StaticSecret::from` on 32 bytes, which clamps them.
#[verifier::external_body]
fn secret_from_bytes(bytes: [u8; 32]) -> (secret: x25519_dalek::StaticSecret)
    ensures
        secret_bytes(secret) == clamped(bytes@),
{
    x25519_dalek::StaticSecret::from(bytes)
}

/// Calls `StaticSecret::to_bytes`, which copies the key's 32 bytes out.
/// Nothing is claimed of the bytes themselves: a key that was wiped holds
/// zeros, which are not clamped.
#[verifier::external_body]
fn secret_to_bytes(secret: &x25519_dalek::StaticSecret) -> (bytes: [u8; 32])
    ensures
        bytes@ == secret_bytes(*secret),
{
    secret.to_bytes()
}

/// Generates a new secret key with the random number generator of the
/// operating system, by `StaticSecret::new` on `OsRng`. Which key comes out
/// is left open; its bytes are clamped. Where the generator fails the
/// process cannot go on.
#[verifier::external_body]
pub fn new_with_os_rand() -> (secret: x25519_dalek::StaticSecret)
    ensures
        is_key_bytes(secret_bytes(secret)),
{
    x25519_dalek::StaticSecret::new(rand_core::OsRng)
}

/// Clamping leaves clamped bytes as they are.
pub proof fn lemma_clamped_twice(bytes: Seq<u8>)
    requires
        bytes.len() == 32,
    ensures
        clamped(clamped(bytes)) == clamped(bytes),
        is_key_bytes(clamped(bytes)),
{
    let low = bytes[0];
    let high = bytes[31];
    assert((low & 248u8) & 248u8 == low & 248u8) by (bit_vector);
    assert(((((high & 127u8) | 64u8) & 127u8) | 64u8) == (high & 127u8) | 64u8) by (bit_vector);
    assert(clamped(clamped(bytes)) =~= clamped(bytes));
}

/// A key that was saved and then loaded is the key that was saved: a file
/// that holds what `to_file_bytes` gives for a key loads as that key's bytes.
/// This holds of every key whose bytes are clamped, which leaves out only a
/// key that was wiped after it was made.
pub proof fn lemma_save_then_load(key: x25519_dalek::StaticSecret, read: KeyFileRead)
    requires
        is_key_bytes(secret_bytes(key)),
        read matches KeyFileRead::Contents(contents) && contents@ == secret_bytes(key),
    ensures
        loaded_bytes(secret_bytes(key)) == Ok::<Seq<u8>, KeyFileError>(secret_bytes(key)),
        read_bytes(read) == Ok::<Seq<u8>, KeyFileError>(secret_bytes(key)),
{
}

/// Takes the key from everything its file holds.
///
/// The file must hold exactly 32 bytes; a shorter or longer one is refused
/// and never read as part of a key.
pub fn from_file_contents(contents: &[u8]) -> (loaded: Result<
    x25519_dalek::StaticSecret,
    KeyFileError,
>)
    ensures
        is_key_of(loaded, loaded_bytes(contents@)),
        loaded is Ok <==> contents@.len() == 32,
        loaded matches Ok(key) ==> is_key_bytes(secret_bytes(key)),
{
    match key_array(contents) {
        None => Err(KeyFileError::WrongSize),
        Some(bytes) => {
            proof {
                lemma_clamped_twice(bytes@);
            }
            Ok(secret_from_bytes(bytes))
        },
    }
}

/// Decides what a read of the key file leads to: the key, or why there is
/// none.
pub fn from_file_read(read: &KeyFileRead) -> (loaded: Result<
    x25519_dalek::StaticSecret,
    KeyFileError,
>)
    ensures
        is_key_of(loaded, read_bytes(*read)),
        loaded is Ok <==> (read matches KeyFileRead::Contents(contents) && contents@.len()
            == 32),
{
    match read {
        KeyFileRead::NotAFile => Err(KeyFileError::Missing),
        KeyFileRead::Failed => Err(KeyFileError::Io),
        KeyFileRead::Contents(contents) => from_file_contents(contents.as_slice()),
    }
}

/// The contents of the file that keeps a key: its 32 raw bytes. They load
/// as the same key wherever the key's bytes are clamped, as those of every
/// generated or loaded key are; a key that was wiped loads as another.
pub fn to_file_bytes(secret: &x25519_dalek::StaticSecret) -> (contents: Vec<u8>)
    ensures
        contents@ == secret_bytes(*secret),
        contents@.len() == 32,
        is_key_bytes(secret_bytes(*secret)) ==> loaded_bytes(contents@) == Ok::<
            Seq<u8>,
            KeyFileError,
        >(secret_bytes(*secret)),
{
    let bytes = secret_to_bytes(secret);
    let mut contents: Vec<u8> = Vec::with_capacity(32);
    let mut i: usize = 0;
    while i < 32
        invariant
            i <= 32,
            contents@.len() == i,
            forall|j: int| 0 <= j < i ==> contents@[j] == bytes@[j],
        decreases 32 - i,
    {
        contents.push(bytes[i]);
        i += 1;
    }
    assert(contents@ =~= bytes@);
    contents
}

/// Decides what writing the key file leads to.
pub fn save_outcome(written: bool) -> (saved: Result<(), KeyFileError>)
    ensures
        saved == if written {
            Ok::<(), KeyFileError>(())
        } else {
            Err::<(), KeyFileError>(KeyFileError::Io)
        },
{
    if written {
        Ok(())
    } else {
        Err(KeyFileError::Io)
    }
}

/// First step of loading the key or generating one: the file is loaded
/// exactly when it exists; otherwise a new key is generated, to be written
/// as its own 32 bytes.
pub fn from_file_or_generate(exists: bool) -> (plan: KeyPlan)
    ensures
        exists <==> plan is Load,
        plan matches KeyPlan::Store { key, contents } ==> contents@ == secret_bytes(key)
            && is_key_bytes(contents@),
{
    if exists {
        KeyPlan::Load
    } else {
        let key = new_with_os_rand();
        let contents = to_file_bytes(&key);
        KeyPlan::Store { key, contents }
    }
}

/// Last step of generating a key: the new key is kept exactly when its file
/// was written.
pub fn generated(key: x25519_dalek::StaticSecret, written: bool) -> (kept: Result<
    x25519_dalek::StaticSecret,
    KeyFileError,
>)
    ensures
        kept == if written {
            Ok::<x25519_dalek::StaticSecret, KeyFileError>(key)
        } else {
            Err::<x25519_dalek::StaticSecret, KeyFileError>(KeyFileError::Io)
        },
{
    match save_outcome(written) {
        Ok(_) => Ok(key),
        Err(e) => Err(e),
    }
}

} // verus!
