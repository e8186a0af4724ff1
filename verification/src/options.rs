//! Search options that a delegate may offer as toggles beside the query box.

use vstd::prelude::*;

verus! {

/// Which optional search filters a delegate supports.
#[derive(Copy, Clone, Debug, PartialEq, Eq, Structural)]
pub struct SupportedSearchOptions {
    pub include_ignored: bool,
}

impl SupportedSearchOptions {
    pub fn new(include_ignored: bool) -> (options: Self)
        ensures
            options.include_ignored == include_ignored,
    {
        Self { include_ignored }
    }

    /// No optional filter is supported.
    pub fn default() -> (options: Self)
        ensures
            !options.include_ignored,
    {
        Self::new(false)
    }
}

/// The current state of the optional search filters of a delegate.
#[derive(Copy, Clone, Debug, PartialEq, Eq, Structural)]
pub struct SearchOptions {
    pub include_ignored: bool,
}

} // verus!
