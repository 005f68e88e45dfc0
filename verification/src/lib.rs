//! Core logic for a tabbed document workspace: an ordered tab collection with
//! an active-index rebasing reorder operation, a per-window drag-session state
//! machine, a process-wide drag registry record, and the two-phase protocol
//! that moves a tab's ownership between windows.

use vstd::prelude::*;

pub mod app_state;
pub mod collection;
pub mod drag_state;
pub mod drag_tracking;
pub mod tabs;
pub mod transfer;

verus! {

/// Identity of one window of the application instance.
///
/// The windowing system's own identifier is opaque; the library works with a
/// plain numeric identity and the embedding maps between the two.
#[derive(Clone, Copy, Debug, PartialEq, Eq, Hash, Structural)]
pub struct WindowId(pub u64);

} // verus!
