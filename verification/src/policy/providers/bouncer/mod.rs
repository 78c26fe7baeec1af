//! The gateway's own policies.

pub mod authentication;
pub mod authorization;
