//! Authentication by bearer token.

use vstd::prelude::*;

pub mod v1;

verus! {

/// Returns the policy ID with its version. `v1` is the only version there is.
pub fn policy_id_with_version(version: &str) -> (id: &'static str)
    requires
        version@ == "v1"@,
    ensures
        id@ == "@bouncer/authentication/bearer/v1"@,
{
    "@bouncer/authentication/bearer/v1"
}

} // verus!
