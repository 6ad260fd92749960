//! What every command of the session offers.
use vstd::prelude::*;
use crate::cli::InputParser;
use crate::manager::Config;
use crate::utils::CommandError;

verus! {

/// A command of the session: it is made from the configuration and a parsed
/// line, checks its arguments, and runs.
///
/// A command borrows the configuration for as long as it lives. What `run`
/// returns is for the caller to print or to act on; no command prints or reads
/// by itself.
pub trait Command<'a, Run>: Sized {
    /// Whether the parsed line has the arguments that the command needs at
    /// least.
    spec fn has_arguments(&self) -> bool;

    /// The command for the parsed line `data`.
    fn new(config: &'a mut Config, data: InputParser) -> Self;

    /// Runs the command.
    fn run(&mut self) -> Run;

    /// Checks the arguments of the command.
    fn validate(&self) -> (r: Result<(), CommandError>)
        ensures
            r == if self.has_arguments() {
                Ok::<(), CommandError>(())
            } else {
                Err::<(), CommandError>(CommandError::InsufficientArguments)
            },
    ;
}

} // verus!
