//! The shape of the command line.

use crate::args::RunArgs;
use vstd::prelude::*;

verus! {

/// The commands of the program.
#[derive(Debug, Clone)]
pub enum Commands {
    /// Traverses directories and bundles what they hold.
    Run(RunArgs),
}

/// A parsed command line.
#[derive(Debug, Clone)]
pub struct Cli {
    /// The command to carry out.
    pub command: Commands,
}

} // verus!
