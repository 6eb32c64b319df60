//! The icons the GUI paints itself (so that they never depend on font coverage).

use vstd::prelude::*;

verus! {

/// The painted icons.
#[derive(Clone, Copy, Debug, PartialEq, Eq, Structural)]
pub enum Icon {
    Check,
    X,
    Trash,
    Download,
    Pause,
    Play,
    Refresh,
    Up,
    Warning,
    /// Tab icons.
    Box,
    Keyboard,
    Gear,
    Document,
}

} // verus!
