//! The perception-fusion unit of the driver-assistance components.

use vstd::prelude::*;

verus! {

/// The unit that fuses what the sensors perceive.
pub struct Component;

impl Component {
    /// Processes one frame and reports that it did.
    pub fn process_frame() -> (report: String)
        ensures
            report@ == "Perception Fusion ECU - Frame processed"@,
    {
        "Perception Fusion ECU - Frame processed".to_owned()
    }
}

} // verus!
