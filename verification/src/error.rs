//! Errors of a client's setup.

use vstd::prelude::*;
use vstd::string::StringExecFns;

verus! {

/// How the message of an invalid server URL begins.
pub const INVALID_SERVER_URL: &'static str = "Server .onion URL is not valid: ";

/// Error while setting up a client.
#[derive(Debug)]
pub enum SetupError {
    /// Tor .onion url is not valid.
    InvalidServerUrl(&'static str),
}

impl SetupError {
    /// The message of the error: what went wrong, then the description that
    /// the error carries.
    pub open spec fn message_text(self) -> Seq<char> {
        match self {
            SetupError::InvalidServerUrl(descr) => INVALID_SERVER_URL@ + descr@,
        }
    }

    /// The message of the error, as it is shown to the user.
    pub fn message(&self) -> (text: String)
        ensures
            text@ == self.message_text(),
    {
        match self {
            SetupError::InvalidServerUrl(descr) => String::from_str(INVALID_SERVER_URL).concat(
                descr,
            ),
        }
    }
}

} // verus!
