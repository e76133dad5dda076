//! The bodies that create and change systems.

use vstd::prelude::*;

verus! {

/// The body of a request that creates a system.
#[derive(Debug)]
pub struct CreateSystem {
    pub name: String,
    pub description: Option<String>,
}

/// The body of a request that changes a system; absent fields stay as they are.
#[derive(Debug)]
pub struct UpdateSystem {
    pub name: Option<String>,
    pub description: Option<String>,
}

} // verus!
