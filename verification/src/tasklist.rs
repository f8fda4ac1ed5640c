//! Plain records of a task list.

use vstd::prelude::*;

verus! {

/// A directed link between two tasks of a task list.
#[derive(Debug, Clone)]
pub struct Transition {
    pub id: String,
    pub source_task_id: String,
    pub target_task_id: String,
}

impl Default for Transition {
    /// The empty transition: all three identifiers are the empty string.
    fn default() -> (transition: Self)
        ensures
            transition.id@ == Seq::<char>::empty(),
            transition.source_task_id@ == Seq::<char>::empty(),
            transition.target_task_id@ == Seq::<char>::empty(),
    {
        Transition {
            id: String::new(),
            source_task_id: String::new(),
            target_task_id: String::new(),
        }
    }
}

} // verus!
