//! The configuration snapshot the recorder reads.

use vstd::prelude::*;

use crate::cost::Arch;

verus! {

/// An immutable configuration snapshot, injected at construction time.
/// `enhanced_metrics` is the hard switch checked first: when it is false no operation emits
/// anything. `arch` is the hardware target the process was resolved to once
/// at start time, used only to price the cost estimate.
#[derive(Clone, Copy, PartialEq, Eq, Structural, Debug)]
pub struct Config {
    pub enhanced_metrics: bool,
    pub arch: Arch,
}

impl Default for Config {
    /// Enhanced metrics are on by default; the hardware target is unknown
    /// until the process resolves it.
    fn default() -> (c: Config)
        ensures
            c.enhanced_metrics == true,
            c.arch is Unsupported,
    {
        Config { enhanced_metrics: true, arch: Arch::Unsupported }
    }
}

} // verus!
