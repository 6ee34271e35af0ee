//! Records that clients and hosts send to each other.

pub mod password;
pub mod public_device;
pub mod public_password;
pub mod register_device;
pub mod register_password;
pub mod text;

pub use password::{PasswordRequest, PasswordRequestView, PasswordResponse};
pub use public_device::{PublicDevice, PublicDeviceView};
pub use public_password::{PublicPassword, PublicPasswordView};
pub use register_device::{
    NeedsVerificationDevice, NeedsVerificationDeviceView, PublicKeyError, RegisterDeviceRequest,
    RegisterDeviceRequestView, RegisterDeviceResponse, RegisterDeviceResponseView,
};
pub use register_password::{RegisterPasswordRequest, RegisterPasswordRequestView};
