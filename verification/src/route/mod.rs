//! Route URL paths, by API version.

pub mod v1;
