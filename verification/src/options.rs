use vstd::prelude::*;

verus! {

/// Which findings the caller tolerates. The default, all flags off, is the
/// strictest mode.
#[derive(Copy, Clone, Eq, PartialEq, Ord, PartialOrd, Hash, Debug, Structural)]
pub struct CheckOptions {
    /// Dirty files are neither an error nor listed.
    pub allow_dirty: bool,
    /// Disables checking altogether: nothing is looked at, not even whether
    /// the path exists.
    pub allow_no_vcs: bool,
    /// Staged files are neither an error nor listed.
    pub allow_staged: bool,
}

impl CheckOptions {
    /// The strictest options: nothing is allowed.
    pub open spec fn strictest() -> Self {
        CheckOptions { allow_dirty: false, allow_no_vcs: false, allow_staged: false }
    }

    /// Creates the options with their default values.
    pub fn new() -> (opts: Self)
        ensures
            opts == Self::strictest(),
    {
        CheckOptions { allow_dirty: false, allow_no_vcs: false, allow_staged: false }
    }
}

impl Default for CheckOptions {
    fn default() -> (opts: Self)
        ensures
            opts == Self::strictest(),
    {
        CheckOptions::new()
    }
}

} // verus!
