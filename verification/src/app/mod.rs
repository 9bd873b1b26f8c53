//! The runtime's decisions, without the runtime: process state, the capture step, the
//! frontend operations, events and platform naming.
use vstd::prelude::*;

pub mod capture;
pub mod autostart;
pub mod events;
pub mod hotkey;
pub mod ops;
pub mod platform;
pub mod state;
pub mod window;

use crate::text::str_eq;

verus! {

/// Command-line flag that starts clipbuf with its window hidden (used for launch at login).
pub const HIDDEN_FLAG: &'static str = "--hidden";

/// Options read from the command line.
#[derive(Debug, Clone, Copy, PartialEq, Eq, Structural)]
pub struct RuntimeOpts {
    /// Start with the main window hidden.
    pub start_hidden: bool,
}

/// Some argument is exactly the hidden flag.
pub open spec fn has_hidden_flag(args: Seq<String>) -> bool {
    exists|i: int| 0 <= i < args.len() && (#[trigger] args[i])@ == "--hidden"@
}

/// Read the runtime options from the process arguments.
pub fn parse_runtime_opts(args: &[String]) -> (res: RuntimeOpts)
    ensures
        res.start_hidden == has_hidden_flag(args@),
{
    let mut i: usize = 0;
    while i < args.len()
        invariant
            i <= args@.len(),
            forall|j: int| 0 <= j < i ==> (#[trigger] args@[j])@ != "--hidden"@,
        decreases args@.len() - i,
    {
        if str_eq(args[i].as_str(), HIDDEN_FLAG) {
            return RuntimeOpts { start_hidden: true };
        }
        i = i + 1;
    }
    RuntimeOpts { start_hidden: false }
}

} // verus!
