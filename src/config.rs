//! The already-loaded configuration: the two binaries and the commands to
//! run against each.

use vstd::prelude::*;
use crate::env::EnvVars;

verus! {

/// A command to run: a name for the report, its arguments in order, and
/// optional environment overrides.
pub struct Command {
    pub name: String,
    pub env: Option<EnvVars>,
    pub args: Vec<String>,
}

/// Two binaries to compare and the commands to run against both, in order.
pub struct Config {
    pub bin1: String,
    pub bin2: String,
    pub commands: Vec<Command>,
}

impl Config {
    /// The first of the two binaries that does not exist, given whether each
    /// one does; nothing when both exist.
    pub fn missing_binary(&self, bin1_exists: bool, bin2_exists: bool) -> (r: Option<String>)
        ensures
            !bin1_exists ==> (r matches Some(b) && b@ == self.bin1@),
            bin1_exists && !bin2_exists ==> (r matches Some(b) && b@ == self.bin2@),
            bin1_exists && bin2_exists ==> r is None,
    {
        if !bin1_exists {
            Some(self.bin1.clone())
        } else if !bin2_exists {
            Some(self.bin2.clone())
        } else {
            None
        }
    }
}

} // verus!
