//! Policies: what they are, how they are built from configuration, and how
//! a request runs through a chain of them.

pub mod middleware;
pub mod providers;
pub mod registry;
pub mod routes;
pub mod traits;

pub use middleware::PolicyChainExt;
pub use traits::Policy;
