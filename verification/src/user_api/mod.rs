//! Typed shapes of the user-facing endpoints: the account profile and the
//! billing profile. Both are plain deserialization targets, owned by the
//! caller once a fetch returns them.

pub mod billing_profile;
pub mod user;
