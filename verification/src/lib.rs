//! A configurable HTTP gateway: requests run through an ordered chain of
//! policies and, where every policy lets them pass, are forwarded upstream.

pub mod config;
pub mod database;
pub mod http;
pub mod policy;
pub mod server;
pub mod text;
pub mod value;
