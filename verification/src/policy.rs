//! How a run is to behave.

use vstd::prelude::*;

verus! {

/// How results are rendered.
#[derive(Debug, Clone, Copy, PartialEq, Eq, Structural)]
pub enum OutputFormat {
    Human,
    Json,
}

/// The policy of a run.
#[derive(Debug, Clone, Copy, PartialEq, Eq, Structural)]
pub struct ExecutionContext {
    /// Actions are previewed and change nothing.
    pub dry_run: bool,
    /// `DELETE` and `KILL` may run.
    pub allow_actions: bool,
    pub output_format: OutputFormat,
    pub verbose: bool,
}

impl Default for ExecutionContext {
    fn default() -> (r: Self)
        ensures
            r == (ExecutionContext {
                dry_run: false,
                allow_actions: false,
                output_format: OutputFormat::Human,
                verbose: false,
            }),
    {
        ExecutionContext {
            dry_run: false,
            allow_actions: false,
            output_format: OutputFormat::Human,
            verbose: false,
        }
    }
}

} // verus!
