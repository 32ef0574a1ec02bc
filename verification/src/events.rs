//! Event shapes published around task queuing and policy decisions.

use vstd::prelude::*;

verus! {

/// Announces that a task entered a queue.
pub struct QueueTaskCreated {
    pub project_id: String,
    pub task_id: String,
    pub kind: String,
    pub ko_refs: Vec<String>,
}

/// Records what a policy decided about a task.
pub struct PolicyDecision {
    pub task_id: String,
    pub decisions: Vec<String>,
    pub sse_verdict_ko: Option<String>,
}

} // verus!
