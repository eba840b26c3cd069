use vstd::prelude::*;

verus! {

/// The parsed command line.
pub struct Cli {
    pub command: Commands,
}

/// The top-level commands.
pub enum Commands {
    /// Root authority management.
    Ca { command: CaCommands },
    /// Issue a leaf certificate for `dns` with the authority of profile `root_ca`.
    Sign { root_ca: String, dns: Vec<String> },
}

/// The root authority commands.
pub enum CaCommands {
    /// Generate a root authority and register it under `profile`.
    Gen { profile: String },
    /// Install the authority of `profile` into the system trust store.
    Install { profile: String },
}

} // verus!
