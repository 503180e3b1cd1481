//! Roles by which a service acts on other services.

use vstd::prelude::*;

verus! {

/// An access role.
#[derive(Debug, Clone)]
pub struct Role {
    /// The name of the role.
    pub name: String,
}

} // verus!
