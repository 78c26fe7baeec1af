//! Authorization by role.

use vstd::prelude::*;

pub mod v1;

verus! {

/// Returns the policy ID with its version. `v1` is the only version there is.
pub fn policy_id_with_version(version: &str) -> (id: &'static str)
    requires
        version@ == "v1"@,
    ensures
        id@ == "@bouncer/authorization/rbac/v1"@,
{
    "@bouncer/authorization/rbac/v1"
}

} // verus!
