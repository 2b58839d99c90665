//! Command-line options and the configuration they give.

use vstd::prelude::*;

use crate::focus::FocusConfig;

verus! {

/// Eager click-to-focus for macOS: the options of the command line.
pub struct Args {
    /// Also raise the focused window to the front.
    pub raise: bool,
    /// Bundle IDs to ignore (repeatable).
    pub ignore: Vec<String>,
    /// Enable verbose logging.
    pub verbose: bool,
}

impl Args {
    /// The focus configuration the options ask for, for the process `own_pid`.
    pub fn into_focus_config(self, own_pid: i32) -> (config: FocusConfig)
        ensures
            config.raise == self.raise,
            config.ignore_bundle_ids@ == self.ignore@,
            config.own_pid == own_pid,
    {
        FocusConfig { raise: self.raise, ignore_bundle_ids: self.ignore, own_pid }
    }
}

} // verus!
