//! The `prove` command as the command line sees it.

use vstd::prelude::*;
use crate::errors::CLIError;

verus! {

/// The matches that clap found on the command line, `clap::ArgMatches`.
/// Nothing is known here of what they hold.
#[verifier::external_type_specification]
#[verifier::external_body]
pub struct ExArgMatches<'a>(clap::ArgMatches<'a>);

/// The command that runs a program on its inputs and produces a proof.
///
/// What the command does is laid down in [`crate::pipeline`]: it walks a run
/// from [`crate::pipeline::Stage::Start`], performing each action that
/// [`crate::pipeline::Stage::advance`] asks for, until the run has ended.
#[derive(Debug)]
pub struct ProveCommand;

impl ProveCommand {
    /// The name of the subcommand.
    pub const NAME: &'static str = "prove";

    /// What the subcommand says of itself.
    pub const ABOUT: &'static str = "Run the program and produce a proof";

    /// Reads the options of the command from the command line. The command
    /// has no argument, flag or option, so there is nothing to read: the
    /// options are `()` whatever the matches hold.
    pub fn parse(_arguments: &clap::ArgMatches) -> (options: Result<(), CLIError>)
        ensures
            options == Ok::<(), CLIError>(()),
    {
        Ok(())
    }
}

} // verus!
