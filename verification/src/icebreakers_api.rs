//! The reply shape of the optional fleet-registry collaborator. The
//! registration handshake itself happens outside the library; the route
//! it grants becomes the API prefix.

use vstd::prelude::*;

verus! {

/// A successful registration: the route prefix the registry assigned.
#[derive(Debug, PartialEq, Eq)]
pub struct SuccessResponse {
    pub route: String,
}

impl SuccessResponse {
    /// The granted route prefix.
    pub fn route(&self) -> (r: &String)
        ensures
            r == self.route,
    {
        &self.route
    }
}

} // verus!
