//! Options of the framework's log viewer panel.

use vstd::prelude::*;

verus! {

/// Options of a log viewer panel.
#[derive(Debug, Clone, Copy, PartialEq, Eq, Structural)]
pub struct LogViewerOptions {
    /// Whether the view follows the newest line.
    pub auto_scroll: bool,
    pub show_toolbar: bool,
}

impl Default for LogViewerOptions {
    fn default() -> (r: Self)
        ensures
            r.auto_scroll,
            r.show_toolbar,
    {
        LogViewerOptions { auto_scroll: true, show_toolbar: true }
    }
}

} // verus!
