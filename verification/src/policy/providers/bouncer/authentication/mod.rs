//! Policies that establish who sent a request.

pub mod bearer;
