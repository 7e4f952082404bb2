use vstd::prelude::*;

verus! {

/// How much logging the front end should emit.
#[derive(Clone, Copy, PartialEq, Eq, Structural, Debug)]
pub enum VerbosityLevel {
    TRACE,
    DEBUG,
    INFO,
    WARN,
    ERROR,
}

/// The command-line options: two reset switches and the verbosity level.
#[derive(Clone, Copy, PartialEq, Eq, Structural, Debug)]
pub struct CliArgs {
    pub reset_config: bool,
    pub reset_database: bool,
    pub verbosity: VerbosityLevel,
}

impl Default for CliArgs {
    /// No resets, at the default verbosity.
    fn default() -> (r: CliArgs)
        ensures
            r.reset_config == false,
            r.reset_database == false,
            r.verbosity is INFO,
    {
        CliArgs { reset_config: false, reset_database: false, verbosity: VerbosityLevel::INFO }
    }
}

} // verus!
