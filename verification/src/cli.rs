//! The command-line decision: which of the two recognized modes a process
//! invocation selects, or which usage error it commits. The surrounding
//! process (argument collection, exit codes, output) stays outside the
//! library; it acts on the returned decision.

use vstd::prelude::*;

use crate::substring::str_eq;

verus! {

/// What a process invocation asks for.
#[derive(Clone, Copy, Debug, PartialEq, Eq, Structural)]
pub enum CliAction {
    /// Generate the static site into the output directory.
    Generate,
    /// Print usage and exit successfully.
    Help,
    /// No argument was given: print usage and exit non-zero.
    MissingArg,
    /// An unrecognized argument was given: report it, print usage, exit non-zero.
    UnknownOption,
}

/// The decision for a given argument list (the first entry is the program
/// name, as the operating system hands it over).
pub open spec fn spec_cli_action(args: Seq<Seq<char>>) -> CliAction {
    if args.len() < 2 {
        CliAction::MissingArg
    } else if args[1] == "--generate-static"@ {
        CliAction::Generate
    } else if args[1] == "--help"@ || args[1] == "-h"@ {
        CliAction::Help
    } else {
        CliAction::UnknownOption
    }
}

/// Decides what an argument list asks for.
pub fn parse_args(args: &Vec<String>) -> (a: CliAction)
    ensures
        a == spec_cli_action(args@.map_values(|s: String| s@)),
{
    if args.len() < 2 {
        return CliAction::MissingArg;
    }
    let arg = args[1].as_str();
    if str_eq(arg, "--generate-static") {
        CliAction::Generate
    } else if str_eq(arg, "--help") || str_eq(arg, "-h") {
        CliAction::Help
    } else {
        CliAction::UnknownOption
    }
}

} // verus!
