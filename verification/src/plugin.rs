//! The capabilities that the shell attaches to its configuration before it
//! starts.
use vstd::prelude::*;

verus! {

/// A capability that is attached to the configuration before the
/// application starts.
#[derive(Clone, Copy, Debug, PartialEq, Eq, Structural)]
pub enum Plugin {
    /// Opens files and addresses with the programs the system has for them.
    Opener,
}

impl Plugin {
    /// The name under which the framework knows the capability.
    pub open spec fn spec_name(self) -> Seq<char> {
        match self {
            Plugin::Opener => "opener"@,
        }
    }

    /// The name under which the framework knows the capability.
    pub fn name(&self) -> (name: &'static str)
        ensures
            name@ == self.spec_name(),
    {
        match self {
            Plugin::Opener => "opener",
        }
    }
}

} // verus!
