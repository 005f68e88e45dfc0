//! Process-wide record of the tab currently being dragged.
//!
//! At most one drag exists per process: starting a new drag unconditionally
//! replaces whatever record was left behind. The registry holds only the
//! dragged tab's location and pointer offset, never the tab value itself.
//! Every window reads it on pointer moves; the embedding shares one registry
//! between windows behind a many-readers / rare-writers lock and keeps each
//! critical section to a single registry operation.

use vstd::prelude::*;

use crate::WindowId;

verus! {

/// Information about the tab currently being dragged: where it came from,
/// the pointer offset within the tab at drag-start (in whole pixels), and
/// the candidate target window while the pointer hovers another window.
#[derive(Debug, Clone, Copy, PartialEq, Eq, Structural)]
pub struct DraggedTab {
    pub source_window_id: WindowId,
    pub source_tab_index: usize,
    pub offset_x: i64,
    pub offset_y: i64,
    pub target_window_id: Option<WindowId>,
}

/// The process-wide slot holding at most one [`DraggedTab`].
#[derive(Debug, Clone, Copy, PartialEq, Eq, Structural)]
pub struct DragRegistry {
    pub dragged: Option<DraggedTab>,
}

impl DragRegistry {
    /// An empty registry: no drag in progress.
    pub fn new() -> (r: Self)
        ensures
            r.dragged is None,
    {
        DragRegistry { dragged: None }
    }

    /// Record a new drag, superseding any stale record, with no candidate
    /// target yet.
    pub fn start_tab_drag(&mut self, window_id: WindowId, tab_index: usize, offset_x: i64, offset_y: i64)
        ensures
            final(self).dragged == Some(
                DraggedTab {
                    source_window_id: window_id,
                    source_tab_index: tab_index,
                    offset_x,
                    offset_y,
                    target_window_id: None,
                },
            ),
    {
        self.dragged = Some(
            DraggedTab {
                source_window_id: window_id,
                source_tab_index: tab_index,
                offset_x,
                offset_y,
                target_window_id: None,
            },
        );
    }

    /// Clear the slot unconditionally: the gesture is over.
    pub fn end_tab_drag(&mut self)
        ensures
            final(self).dragged is None,
    {
        self.dragged = None;
    }

    /// Whether some tab is currently being dragged.
    pub fn is_tab_dragging(&self) -> (r: bool)
        ensures
            r == (self.dragged is Some),
    {
        self.dragged.is_some()
    }

    /// A copy of the current drag record, safe to take at any time.
    pub fn get_dragged_tab(&self) -> (r: Option<DraggedTab>)
        ensures
            r == self.dragged,
    {
        self.dragged
    }

    /// Set the candidate target window for a cross-window transfer; without
    /// a drag in progress there is nothing to update.
    pub fn set_target_window(&mut self, window_id: WindowId)
        ensures
            match old(self).dragged {
                Some(d) => final(self).dragged == Some(
                    DraggedTab { target_window_id: Some(window_id), ..d },
                ),
                None => final(self).dragged is None,
            },
    {
        if let Some(ref mut dragged) = self.dragged {
            dragged.target_window_id = Some(window_id);
        }
    }

    /// Clear the candidate target window, used when the drag leaves a
    /// window; without a drag in progress there is nothing to update.
    pub fn clear_target_window(&mut self)
        ensures
            match old(self).dragged {
                Some(d) => final(self).dragged == Some(
                    DraggedTab { target_window_id: None, ..d },
                ),
                None => final(self).dragged is None,
            },
    {
        if let Some(ref mut dragged) = self.dragged {
            dragged.target_window_id = None;
        }
    }
}

impl Default for DragRegistry {
    /// An empty registry: no drag in progress.
    fn default() -> (r: Self)
        ensures
            r.dragged is None,
    {
        DragRegistry { dragged: None }
    }
}

} // verus!
