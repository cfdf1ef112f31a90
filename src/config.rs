//! The resolved configuration the agent runs with.
use vstd::prelude::*;

verus! {

/// Where the privileged helper executable lies.
#[derive(Clone, Debug)]
pub struct SystemConfig {
    helper_path: String,
}

/// The helper path used when no configuration file names one.
pub open spec fn default_helper_path() -> Seq<char> {
    "/usr/lib/polkit-1/polkit-agent-helper-1"@
}

impl SystemConfig {
    /// The helper path this configuration holds.
    pub closed spec fn helper_path(&self) -> Seq<char> {
        self.helper_path@
    }

    pub fn new(helper_path: String) -> (r: SystemConfig)
        ensures
            r.helper_path() == helper_path@,
    {
        SystemConfig { helper_path }
    }

    pub fn get_helper_path(&self) -> (r: &str)
        ensures
            r@ == self.helper_path(),
    {
        self.helper_path.as_str()
    }
}

impl Default for SystemConfig {
    fn default() -> (r: SystemConfig)
        ensures
            r.helper_path() == default_helper_path(),
    {
        SystemConfig { helper_path: String::from_str("/usr/lib/polkit-1/polkit-agent-helper-1") }
    }
}

} // verus!
