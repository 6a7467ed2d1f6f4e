//! Additional checks kept beside the built-in policies.
pub mod permissions;
