//! A container that marks a value as a payload of the encrypted channel.

use vstd::prelude::*;

verus! {

/// The value that `serde_json::from_str` reads from a text, `None` where it
/// reports an error.
pub uninterp spec fn json_of_str(raw: Seq<char>) -> Option<serde_json::Value>;

/// The text that stands for a payload wherever one is shown.
pub const REDACTED: &'static str = "Encrypted JSON";

/// A text that is not the JSON form of a payload.
#[derive(Debug, Clone, Copy, PartialEq, Eq, Structural)]
pub enum ParseError {
    /// The text is not JSON.
    InvalidJson,
}

/// A JSON payload that is encrypted on its way.
///
/// The container holds the plain value: before encryption on the sending
/// side, after decryption and validation on the receiving side. It holds no
/// key material.
pub struct EncryptedJson<T>(T);

/// Calls `serde_json::from_str` for a JSON value. The value depends on the
/// text alone, so it is named; nothing is claimed of which texts are JSON.
#[verifier::external_body]
fn json_from_str(raw: &str) -> (value: Result<serde_json::Value, serde_json::Error>)
    ensures
        value is Ok <==> json_of_str(raw@) is Some,
        value matches Ok(v) ==> json_of_str(raw@) == Some(v),
{
    serde_json::from_str(raw)
}

impl<T> EncryptedJson<T> {
    /// The value inside.
    pub closed spec fn inner(self) -> T {
        self.0
    }

    /// Construct a new object.
    pub fn new(obj: T) -> (payload: Self)
        ensures
            payload.inner() == obj,
    {
        Self(obj)
    }

    /// Deconstruct to an inner value.
    pub fn into_inner(self) -> (obj: T)
        ensures
            obj == self.inner(),
    {
        self.0
    }

    /// Read access to the inner value.
    pub fn get(&self) -> (obj: &T)
        ensures
            *obj == self.inner(),
    {
        &self.0
    }

    /// Write access to the inner value: what the caller leaves behind the
    /// reference is what the container then holds.
    pub fn get_mut(&mut self) -> (obj: &mut T)
        ensures
            *obj == old(self).inner(),
            final(self).inner() == *final(obj),
    {
        &mut self.0
    }

    /// Decides what the outcome of reading a text as JSON leads to, for a
    /// payload of any type.
    pub fn from_parsed(parsed: Result<T, serde_json::Error>) -> (payload: Result<Self, ParseError>)
        ensures
            match parsed {
                Ok(value) => payload matches Ok(p) && p.inner() == value,
                Err(_) => payload matches Err(e) && e == ParseError::InvalidJson,
            },
    {
        match parsed {
            Ok(value) => Ok(Self(value)),
            Err(_) => Err(ParseError::InvalidJson),
        }
    }

    /// The container as shown in logs and messages. It never shows the
    /// payload, which may be sensitive.
    pub fn describe(&self) -> (text: String)
        ensures
            text@ == REDACTED@,
    {
        REDACTED.to_owned()
    }
}

impl<T> core::ops::Deref for EncryptedJson<T> {
    type Target = T;

    fn deref(&self) -> (obj: &T)
        ensures
            *obj == self.inner(),
    {
        self.get()
    }
}

impl<T> core::ops::DerefMut for EncryptedJson<T> {
    fn deref_mut(&mut self) -> (obj: &mut T)
        ensures
            *obj == old(self).inner(),
            final(self).inner() == *final(obj),
    {
        self.get_mut()
    }
}

impl EncryptedJson<serde_json::Value> {
    /// Construct the object from a string value: the JSON text of the
    /// payload, already decrypted.
    pub fn from_str(raw: &str) -> (payload: Result<Self, ParseError>)
        ensures
            match json_of_str(raw@) {
                Some(value) => payload matches Ok(p) && p.inner() == value,
                None => payload matches Err(e) && e == ParseError::InvalidJson,
            },
    {
        Self::from_parsed(json_from_str(raw))
    }
}

} // verus!
