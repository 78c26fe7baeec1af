//! Policies that decide what an authenticated sender may do.

pub mod rbac;
