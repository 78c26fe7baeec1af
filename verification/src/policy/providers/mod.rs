//! The policies that come with the gateway.

pub mod bouncer;
pub mod logging;
