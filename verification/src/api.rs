//! Response body types for the front door's own endpoints.

use vstd::prelude::*;

verus! {

/// The health check's body.
pub struct Health {
    pub status: &'static str,
}

impl Health {
    /// The healthy answer.
    pub fn ok() -> (h: Health)
        ensures
            h.status@ == "ok"@,
    {
        Health { status: "ok" }
    }
}

} // verus!
