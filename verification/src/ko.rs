//! Knowledge-object references: opaque string identifiers pointing at stored
//! artifacts.

use vstd::prelude::*;

verus! {

/// One reference to a stored artifact.
pub struct KoRef {
    pub id: String,
}

/// A pack of references assembled for a consumer, with the redaction patterns
/// that apply to it.
pub struct ContextPack {
    pub ko_id: String,
    pub items: Vec<KoRef>,
    pub redactions: Vec<String>,
}

} // verus!
