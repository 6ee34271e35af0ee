use vstd::prelude::*;

use crate::crypto::key_array;

verus! {

/// `x25519_dalek::PublicKey`: the public half of a key pair. It is carried
/// as it is; only its bytes are read.
#[verifier::external_type_specification]
#[verifier::external_body]
pub struct ExPublicKey(x25519_dalek::PublicKey);

/// `base64::DecodeError`: why a text is not base64.
#[verifier::external_type_specification]
#[verifier::external_body]
pub struct ExDecodeError(base64::DecodeError);

/// The 32 bytes of a public key, as `PublicKey::as_bytes` gives them.
pub uninterp spec fn public_bytes(key: x25519_dalek::PublicKey) -> Seq<u8>;

/// The base64 text that `base64::encode` writes for some bytes.
pub uninterp spec fn base64_text(bytes: Seq<u8>) -> Seq<char>;

/// The bytes that `base64::decode` reads from a text, `None` where it reports
/// an error.
pub uninterp spec fn base64_bytes(text: Seq<char>) -> Option<Seq<u8>>;

/// Why the text of a public key does not give a key.
#[derive(Debug, Clone, Copy, PartialEq, Eq, Structural)]
pub enum PublicKeyError {
    /// The text is not base64.
    Encoding,
    /// The text does not stand for exactly 32 bytes.
    Length,
}

/// The bytes of the public key that decoded text leads to.
pub open spec fn key_bytes_of(decoded: Option<Seq<u8>>) -> Result<Seq<u8>, PublicKeyError> {
    match decoded {
        None => Err(PublicKeyError::Encoding),
        Some(bytes) => if bytes.len() == 32 {
            Ok(bytes)
        } else {
            Err(PublicKeyError::Length)
        },
    }
}

/// Whether `key` holds a public key exactly where `expected` holds its bytes,
/// and otherwise the same error.
pub open spec fn is_public_key_of(
    key: Result<x25519_dalek::PublicKey, PublicKeyError>,
    expected: Result<Seq<u8>, PublicKeyError>,
) -> bool {
    match expected {
        Ok(bytes) => key matches Ok(k) && public_bytes(k) == bytes,
        Err(e) => key matches Err(f) && f == e,
    }
}

/// What `base64::decode` gave, as plain bytes.
pub open spec fn decoded_bytes(decoded: Result<Vec<u8>, base64::DecodeError>) -> Option<Seq<u8>> {
    match decoded {
        Ok(bytes) => Some(bytes@),
        Err(_) => None,
    }
}

/// Calls `PublicKey::as_bytes` and copies the key's 32 bytes out.
#[verifier::external_body]
fn public_key_bytes(key: &x25519_dalek::PublicKey) -> (bytes: [u8; 32])
    ensures
        bytes@ == public_bytes(*key),
{
    *key.as_bytes()
}

/// Calls `PublicKey::from` on 32 bytes, which keeps them as they are.
#[verifier::external_body]
fn public_key_from_bytes(bytes: [u8; 32]) -> (key: x25519_dalek::PublicKey)
    ensures
        public_bytes(key) == bytes@,
{
    x25519_dalek::PublicKey::from(bytes)
}

/// Calls `base64::encode` on the 32 bytes of a key.
#[verifier::external_body]
fn base64_encode(bytes: &[u8; 32]) -> (text: String)
    ensures
        text@ == base64_text(bytes@),
{
    base64::encode(bytes)
}

/// Calls `base64::decode`. Text that `base64::encode` wrote for some bytes
/// gives those bytes back.
#[verifier::external_body]
fn base64_decode(text: &str) -> (bytes: Result<Vec<u8>, base64::DecodeError>)
    ensures
        decoded_bytes(bytes) == base64_bytes(text@),
        bytes matches Ok(b) ==> forall|encoded: Seq<u8>| #[trigger]
            base64_text(encoded) == text@ ==> encoded == b@,
        bytes is Err ==> forall|encoded: Seq<u8>| #[trigger] base64_text(encoded) != text@,
{
    base64::decode(text)
}

/// A device registration struct.
#[derive(Debug, Clone, PartialEq)]
pub struct RegisterDeviceRequest {
    /// Name of the device as configured by the user.
    name: String,
    /// The public key of the device encoded as base64.
    public_key: String,
}

/// What a `RegisterDeviceRequest` holds.
pub ghost struct RegisterDeviceRequestView {
    pub name: Seq<char>,
    pub public_key: Seq<char>,
}

impl View for RegisterDeviceRequest {
    type V = RegisterDeviceRequestView;

    closed spec fn view(&self) -> RegisterDeviceRequestView {
        RegisterDeviceRequestView { name: self.name@, public_key: self.public_key@ }
    }
}

impl RegisterDeviceRequest {
    /// Construct a new device.
    pub fn new(name: &str, public_key: &x25519_dalek::PublicKey) -> (request: Self)
        ensures
            request@ == (RegisterDeviceRequestView {
                name: name@,
                public_key: base64_text(public_bytes(*public_key)),
            }),
            public_bytes(*public_key).len() == 32,
    {
        let bytes = public_key_bytes(public_key);
        Self { name: name.to_owned(), public_key: base64_encode(&bytes) }
    }

    /// The request with these fields, as it is read from a message. The
    /// text of the key is taken as it is.
    pub fn from_parts(name: &str, public_key: &str) -> (request: Self)
        ensures
            request@ == (RegisterDeviceRequestView { name: name@, public_key: public_key@ }),
    {
        Self { name: name.to_owned(), public_key: public_key.to_owned() }
    }

    /// Name of the device as configured by the user.
    pub fn name(&self) -> (name: &str)
        ensures
            name@ == self@.name,
    {
        self.name.as_str()
    }

    /// The public key of the device encoded as base64.
    pub fn public_key(&self) -> (public_key: &str)
        ensures
            public_key@ == self@.public_key,
    {
        self.public_key.as_str()
    }
}

/// The result from successfully registering a device.
#[derive(Debug, Clone, PartialEq)]
pub struct RegisterDeviceResponse {
    /// Unique identifier.
    id: String,
    /// Name of the device as configured by the user.
    name: String,
    /// The public key of the server.
    server_public_key: String,
    /// Verification code that needs to match on all devices.
    verification: String,
}

/// What a `RegisterDeviceResponse` holds.
pub ghost struct RegisterDeviceResponseView {
    pub id: Seq<char>,
    pub name: Seq<char>,
    pub server_public_key: Seq<char>,
    pub verification: Seq<char>,
}

impl View for RegisterDeviceResponse {
    type V = RegisterDeviceResponseView;

    closed spec fn view(&self) -> RegisterDeviceResponseView {
        RegisterDeviceResponseView {
            id: self.id@,
            name: self.name@,
            server_public_key: self.server_public_key@,
            verification: self.verification@,
        }
    }
}

/// Decides what the outcome of decoding the text of a public key leads to:
/// the key with the decoded bytes where there are exactly 32 of them.
pub fn public_key_from_decoded(decoded: Result<Vec<u8>, base64::DecodeError>) -> (key: Result<
    x25519_dalek::PublicKey,
    PublicKeyError,
>)
    ensures
        is_public_key_of(key, key_bytes_of(decoded_bytes(decoded))),
{
    match decoded {
        Err(_) => Err(PublicKeyError::Encoding),
        Ok(bytes) => match key_array(bytes.as_slice()) {
            None => Err(PublicKeyError::Length),
            Some(array) => Ok(public_key_from_bytes(array)),
        },
    }
}

impl RegisterDeviceResponse {
    /// Create a new response.
    ///
    /// Used by the server applications.
    pub fn new(
        id: &str,
        name: &str,
        server_public_key: &x25519_dalek::PublicKey,
        verification: &str,
    ) -> (response: Self)
        ensures
            response@ == (RegisterDeviceResponseView {
                id: id@,
                name: name@,
                server_public_key: base64_text(public_bytes(*server_public_key)),
                verification: verification@,
            }),
            public_bytes(*server_public_key).len() == 32,
    {
        let bytes = public_key_bytes(server_public_key);
        Self {
            id: id.to_owned(),
            name: name.to_owned(),
            server_public_key: base64_encode(&bytes),
            verification: verification.to_owned(),
        }
    }

    /// The response with these fields, as it is read from a message. The
    /// text of the key is taken as it is; `server_public_key` says whether it
    /// gives a key.
    pub fn from_parts(id: &str, name: &str, server_public_key: &str, verification: &str) -> (response:
        Self)
        ensures
            response@ == (RegisterDeviceResponseView {
                id: id@,
                name: name@,
                server_public_key: server_public_key@,
                verification: verification@,
            }),
    {
        Self {
            id: id.to_owned(),
            name: name.to_owned(),
            server_public_key: server_public_key.to_owned(),
            verification: verification.to_owned(),
        }
    }

    /// The public key of the server encoded as base64.
    pub fn server_public_key_text(&self) -> (text: &str)
        ensures
            text@ == self@.server_public_key,
    {
        self.server_public_key.as_str()
    }

    /// Unique identifier.
    pub fn id(&self) -> (id: &str)
        ensures
            id@ == self@.id,
    {
        self.id.as_str()
    }

    /// Name of the device as configured by the user.
    pub fn name(&self) -> (name: &str)
        ensures
            name@ == self@.name,
    {
        self.name.as_str()
    }

    /// Public key of the server.
    ///
    /// A response that was made with a key gives a key with the same bytes.
    pub fn server_public_key(&self) -> (key: Result<x25519_dalek::PublicKey, PublicKeyError>)
        ensures
            is_public_key_of(key, key_bytes_of(base64_bytes(self@.server_public_key))),
            forall|bytes: Seq<u8>|
                bytes.len() == 32 && #[trigger] base64_text(bytes) == self@.server_public_key
                    ==> (key matches Ok(k) && public_bytes(k) == bytes),
    {
        public_key_from_decoded(base64_decode(self.server_public_key.as_str()))
    }

    /// Unique verification code that needs to match on all devices before the device can be
    /// registered.
    pub fn verification_code(&self) -> (code: &str)
        ensures
            code@ == self@.verification,
    {
        self.verification.as_str()
    }
}

/// A device that still needs to be verified.
#[derive(Debug, Clone, PartialEq)]
pub struct NeedsVerificationDevice {
    /// Unique identifier.
    id: String,
    /// Name of the device as configured by the user.
    name: String,
    /// Verification code that needs to match on all devices.
    verification: String,
}

/// What a `NeedsVerificationDevice` holds.
pub ghost struct NeedsVerificationDeviceView {
    pub id: Seq<char>,
    pub name: Seq<char>,
    pub verification: Seq<char>,
}

impl View for NeedsVerificationDevice {
    type V = NeedsVerificationDeviceView;

    closed spec fn view(&self) -> NeedsVerificationDeviceView {
        NeedsVerificationDeviceView {
            id: self.id@,
            name: self.name@,
            verification: self.verification@,
        }
    }
}

impl NeedsVerificationDevice {
    /// Create a new response.
    ///
    /// Used by the server applications.
    pub fn new(id: &str, name: &str, verification: &str) -> (device: Self)
        ensures
            device@ == (NeedsVerificationDeviceView {
                id: id@,
                name: name@,
                verification: verification@,
            }),
    {
        Self { id: id.to_owned(), name: name.to_owned(), verification: verification.to_owned() }
    }

    /// Unique identifier.
    pub fn id(&self) -> (id: &str)
        ensures
            id@ == self@.id,
    {
        self.id.as_str()
    }

    /// Name of the device as configured by the user.
    pub fn name(&self) -> (name: &str)
        ensures
            name@ == self@.name,
    {
        self.name.as_str()
    }

    /// Unique verification code that needs to match on all devices before the device can be
    /// registered.
    pub fn verification_code(&self) -> (code: &str)
        ensures
            code@ == self@.verification,
    {
        self.verification.as_str()
    }
}

} // verus!
