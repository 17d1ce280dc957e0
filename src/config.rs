//! How a presentation run writes its output.

use vstd::prelude::*;

verus! {

/// Machine-readable or human-readable output.
#[derive(Clone, Copy, Debug, PartialEq, Eq, Structural)]
pub enum OutputFormat {
    /// Coloured status lines and dependency trees.
    Human,
    /// The report serialised as it was received.
    Structured,
}

/// Output settings of one run.
#[derive(Clone, Copy, Debug)]
pub struct OutputConfig {
    pub format: OutputFormat,
    /// Suppresses the line announcing the scan.
    pub quiet: bool,
    /// Whether to draw dependency trees; unset means yes.
    pub show_tree: Option<bool>,
}

impl OutputConfig {
    /// Whether dependency trees are drawn.
    pub open spec fn shows_tree(&self) -> bool {
        match self.show_tree {
            Some(b) => b,
            None => true,
        }
    }

    pub fn is_quiet(&self) -> (r: bool)
        ensures
            r == self.quiet,
    {
        self.quiet
    }

    pub fn tree_enabled(&self) -> (r: bool)
        ensures
            r == self.shows_tree(),
    {
        match self.show_tree {
            Some(b) => b,
            None => true,
        }
    }
}

} // verus!
