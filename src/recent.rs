use vstd::prelude::*;

verus! {

/// The order in which the most-recently-used window list is walked.
#[derive(Debug, Clone, Copy, PartialEq, Eq, Default, Structural)]
pub enum MruDirection {
    /// Most recently used to least.
    #[default]
    Forward,
    /// Least recently used to most.
    Backward,
}

/// Which windows the most-recently-used list looks at first.
#[derive(Debug, Clone, Copy, PartialEq, Eq, Default, Structural)]
pub enum MruScope {
    /// All windows.
    #[default]
    All,
    /// Windows on the active output.
    Output,
    /// Windows on the active workspace.
    Workspace,
}

/// Which windows the most-recently-used list keeps.
#[derive(Debug, Clone, Copy, PartialEq, Eq, Default, Structural)]
pub enum MruFilter {
    /// All windows.
    #[default]
    All,
    /// Windows with the same app id as the active window.
    AppId,
}

} // verus!
