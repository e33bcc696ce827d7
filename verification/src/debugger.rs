//! Host-side debugging switches: whether the debug UI is shown and whether
//! the CPU is brought up at start.

use vstd::prelude::*;

verus! {

/// The host's debugging switches.
pub struct Debugger {
    pub show_gui: bool,
    pub init_cpu: bool,
}

impl Default for Debugger {
    /// Both switches start on.
    fn default() -> (r: Self)
        ensures
            r.show_gui,
            r.init_cpu,
    {
        Debugger { show_gui: true, init_cpu: true }
    }
}

} // verus!
