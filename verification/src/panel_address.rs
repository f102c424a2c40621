//! Addresses for user interface panels.
use vstd::prelude::*;

verus! {

/// The current view of the collection browser: how far it has been
/// scrolled.
#[derive(Clone, Copy, Debug, PartialEq, Eq, Structural, Hash)]
pub struct CollectionBrowserFilters {
    pub offset: usize,
}

impl Default for CollectionBrowserFilters {
    /// The browser scrolled to its start.
    fn default() -> (res: CollectionBrowserFilters)
        ensures
            res.offset == 0,
    {
        CollectionBrowserFilters { offset: 0 }
    }
}

} // verus!
