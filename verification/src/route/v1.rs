//! Routes of the first version of the API.

use vstd::prelude::*;

verus! {

/// Nonce required for sending an encrypted request, unencrypted.
pub const NONCE: &'static str = "v1/nonce";

/// Registration of new devices, unencrypted.
pub const REGISTER: &'static str = "/v1/register";

/// Verification of newly registered devices.
pub const VERIFY: &'static str = "/v1/verify";

/// All the devices that need to be verified.
pub const VERIFICATION_DEVICES: &'static str = "/v1/verification_devices";

/// All the devices which have gone through the full verification process.
pub const DEVICES: &'static str = "/v1/devices";

/// All passwords.
pub const PASSWORD: &'static str = "/v1/passwords";

} // verus!
